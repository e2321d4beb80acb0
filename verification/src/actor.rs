//! What all actors share: the status that a handler reports, and the registry
//! that maps each actor's name to the actor.

use vstd::prelude::*;
use crate::browsing_context::{BrowsingContextActor, BrowsingContextView};
use crate::json::field_names;
use crate::tab::{TabDescriptorActor, TabDescriptorView};
use crate::text::{numbered, numbered_name, same_text};
use crate::watcher::{WatcherActor, WatcherActorView};

verus! {

/// What a handler reports of a message: that it acted on it, or that the
/// message is none of its own.
#[derive(Clone, Copy, Debug, PartialEq, Eq, Structural)]
pub enum ActorMessageStatus {
    Processed,
    Ignored,
}

/// What a handler hands back: its status, and the reply that is to be sent
/// to the client, if there is one.
#[derive(Debug)]
pub struct Handled<R> {
    pub status: ActorMessageStatus,
    pub reply: Option<R>,
}

/// What every actor offers: its name, and a handler for the messages that
/// are addressed to it.
pub trait Actor {
    /// The replies that this kind of actor sends.
    type Reply;

    /// The name under which the actor is addressed.
    spec fn actor_name(&self) -> Seq<char>;

    /// Whether the registry holds every actor that the handler looks up for a
    /// message of type `msg_type` with the fields `fields`.
    spec fn can_resolve(
        &self,
        registry: ActorRegistryView,
        msg_type: Seq<char>,
        fields: Set<Seq<char>>,
    ) -> bool;

    /// The name under which the actor is addressed. It never changes.
    fn name(&self) -> (name: String)
        ensures
            name@ == self.actor_name(),
    ;

    /// Handles one message. A message that is none of this actor's own is
    /// reported as ignored, and nothing is sent for it.
    fn handle_message(
        &self,
        registry: &ActorRegistry,
        msg_type: &str,
        msg: &serde_json::Map<String, serde_json::Value>,
    ) -> (handled: Handled<Self::Reply>)
        requires
            self.can_resolve(registry@, msg_type@, field_names(*msg)),
        ensures
            handled.status == ActorMessageStatus::Ignored ==> handled.reply is None,
    ;
}

/// An actor as the registry holds it.
#[derive(Debug)]
pub enum RegisteredActor {
    BrowsingContext(BrowsingContextActor),
    Watcher(WatcherActor),
    TabDescriptor(TabDescriptorActor),
}

/// A registered actor, as mathematical values.
pub enum RegisteredActorView {
    BrowsingContext(BrowsingContextView),
    Watcher(WatcherActorView),
    TabDescriptor(TabDescriptorView),
}

impl RegisteredActorView {
    /// The name under which the actor is addressed.
    pub open spec fn name(self) -> Seq<char> {
        match self {
            RegisteredActorView::BrowsingContext(context) => context.name,
            RegisteredActorView::Watcher(watcher) => watcher.name,
            RegisteredActorView::TabDescriptor(tab) => tab.name,
        }
    }
}

impl View for RegisteredActor {
    type V = RegisteredActorView;

    open spec fn view(&self) -> RegisteredActorView {
        match self {
            RegisteredActor::BrowsingContext(context) => RegisteredActorView::BrowsingContext(
                context@,
            ),
            RegisteredActor::Watcher(watcher) => RegisteredActorView::Watcher(watcher@),
            RegisteredActor::TabDescriptor(tab) => RegisteredActorView::TabDescriptor(tab@),
        }
    }
}

impl RegisteredActor {
    fn name_text(&self) -> (name: &str)
        ensures
            name@ == self@.name(),
    {
        match self {
            RegisteredActor::BrowsingContext(context) => context.name.as_str(),
            RegisteredActor::Watcher(watcher) => watcher.name_text(),
            RegisteredActor::TabDescriptor(tab) => tab.name_text(),
        }
    }
}

/// The registry of one debugging session: the live actors by name, the
/// number that the next generated name will carry, and the root actor's list
/// of tabs.
#[derive(Debug)]
pub struct ActorRegistry {
    next: u32,
    actors: Vec<RegisteredActor>,
    tabs: Vec<String>,
}

/// A registry, as mathematical values.
pub struct ActorRegistryView {
    /// The number that the next generated name will carry.
    pub next: nat,
    /// The live actors, each under its name.
    pub actors: Map<Seq<char>, RegisteredActorView>,
    /// The names of the tab descriptors, in the order of their creation.
    pub tabs: Seq<Seq<char>>,
}

impl ActorRegistryView {
    /// Whether `name` is the name of a registered browsing context.
    pub open spec fn has_browsing_context(self, name: Seq<char>) -> bool {
        self.actors.dom().contains(name) && self.actors[name] is BrowsingContext
    }

    /// The browsing context registered under `name`.
    pub open spec fn browsing_context(self, name: Seq<char>) -> BrowsingContextView
        recommends
            self.has_browsing_context(name),
    {
        self.actors[name]->BrowsingContext_0
    }

    /// Whether `name` is the name of a registered watcher.
    pub open spec fn has_watcher(self, name: Seq<char>) -> bool {
        self.actors.dom().contains(name) && self.actors[name] is Watcher
    }

    /// Whether `name` is in use: an actor is registered under it, or the
    /// root actor's list of tabs holds it.
    pub open spec fn in_use(self, name: Seq<char>) -> bool {
        self.actors.dom().contains(name) || self.tabs.contains(name)
    }

    /// Whether the registry can hand out the name that `prefix` makes with
    /// the number `ahead` steps after the next one: the number is within
    /// reach, and the name is not in use.
    pub open spec fn can_name(self, prefix: Seq<char>, ahead: nat) -> bool {
        &&& self.next + ahead < u32::MAX
        &&& !self.in_use(numbered_name(prefix, self.next + ahead))
    }
}

/// Whether the entry at `i` is the first of `actors` that has the name `name`.
spec fn first_at(actors: Seq<RegisteredActor>, name: Seq<char>, i: int) -> bool {
    &&& 0 <= i < actors.len()
    &&& actors[i]@.name() == name
    &&& forall|k: int| 0 <= k < i ==> (#[trigger] actors[k])@.name() != name
}

/// Whether some entry of `actors` has the name `name`.
spec fn holds_name(actors: Seq<RegisteredActor>, name: Seq<char>) -> bool {
    exists|i: int| first_at(actors, name, i)
}

/// The place of the first entry of `actors` that has the name `name`.
spec fn place_of(actors: Seq<RegisteredActor>, name: Seq<char>) -> int {
    choose|i: int| first_at(actors, name, i)
}

/// The entries of `actors`, each under its name. In a registry no name
/// occurs twice, so the first entry of a name is the only one.
spec fn by_name(actors: Seq<RegisteredActor>) -> Map<Seq<char>, RegisteredActorView> {
    Map::new(
        |name: Seq<char>| holds_name(actors, name),
        |name: Seq<char>| actors[place_of(actors, name)]@,
    )
}

proof fn first_is_found(actors: Seq<RegisteredActor>, name: Seq<char>, i: int)
    requires
        first_at(actors, name, i),
    ensures
        holds_name(actors, name),
        place_of(actors, name) == i,
        by_name(actors).dom().contains(name),
        by_name(actors)[name] == actors[i]@,
{
    let p = place_of(actors, name);
    assert(first_at(actors, name, p));
    if p < i {
        assert(actors[p]@.name() != name);
    } else if i < p {
        assert(actors[i]@.name() != name);
    }
}

proof fn added_entry(actors: Seq<RegisteredActor>, actor: RegisteredActor)
    requires
        forall|k: int| 0 <= k < actors.len() ==> (#[trigger] actors[k])@.name() != actor@.name(),
    ensures
        by_name(actors.push(actor)) == by_name(actors).insert(actor@.name(), actor@),
{
    let more = actors.push(actor);
    let last = actors.len() as int;
    let wanted = by_name(actors).insert(actor@.name(), actor@);
    assert forall|name: Seq<char>, i: int| 0 <= i < last implies first_at(more, name, i)
        == first_at(actors, name, i) by {
        assert(more[i] == actors[i]);
        assert forall|k: int| 0 <= k < i implies (#[trigger] more[k]) == actors[k] by {}
        if first_at(actors, name, i) {
            assert forall|k: int| 0 <= k < i implies (#[trigger] more[k])@.name() != name by {
                assert(actors[k]@.name() != name);
            }
        }
        if first_at(more, name, i) {
            assert forall|k: int| 0 <= k < i implies (#[trigger] actors[k])@.name() != name by {
                assert(more[k]@.name() != name);
            }
        }
    }
    assert(first_at(more, actor@.name(), last)) by {
        assert forall|k: int| 0 <= k < last implies (#[trigger] more[k])@.name() != actor@.name() by {
            assert(actors[k]@.name() != actor@.name());
        }
    }
    assert forall|name: Seq<char>| by_name(more).dom().contains(name) implies wanted.dom().contains(
        name,
    ) && by_name(more)[name] == wanted[name] by {
        let p = place_of(more, name);
        assert(first_at(more, name, p));
        first_is_found(more, name, p);
        if p < last {
            first_is_found(actors, name, p);
        }
    }
    assert forall|name: Seq<char>| wanted.dom().contains(name) implies by_name(more).dom().contains(
        name,
    ) by {
        if name != actor@.name() {
            let p = place_of(actors, name);
            assert(first_at(actors, name, p));
            assert(first_at(more, name, p));
        }
    }
    assert(by_name(more) =~= wanted);
}

proof fn replaced_entry(actors: Seq<RegisteredActor>, i: int, actor: RegisteredActor)
    requires
        first_at(actors, actor@.name(), i),
    ensures
        by_name(actors.update(i, actor)) == by_name(actors).insert(actor@.name(), actor@),
{
    let other = actors.update(i, actor);
    let wanted = by_name(actors).insert(actor@.name(), actor@);
    assert forall|k: int| 0 <= k < actors.len() implies (#[trigger] other[k])@.name() == actors[k]@.name() by {}
    assert forall|name: Seq<char>, j: int| first_at(other, name, j) == first_at(actors, name, j) by {
        if 0 <= j < actors.len() {
            assert(other[j]@.name() == actors[j]@.name());
            if first_at(actors, name, j) {
                assert forall|k: int| 0 <= k < j implies (#[trigger] other[k])@.name() != name by {
                    assert(actors[k]@.name() != name);
                }
            }
            if first_at(other, name, j) {
                assert forall|k: int| 0 <= k < j implies (#[trigger] actors[k])@.name() != name by {
                    assert(other[k]@.name() != name);
                }
            }
        }
    }
    first_is_found(actors, actor@.name(), i);
    assert forall|name: Seq<char>| by_name(other).dom().contains(name) implies wanted.dom().contains(
        name,
    ) && by_name(other)[name] == wanted[name] by {
        let p = place_of(other, name);
        assert(first_at(other, name, p));
        assert(first_at(actors, name, p));
        first_is_found(other, name, p);
        first_is_found(actors, name, p);
        if name != actor@.name() {
            assert(p != i);
            assert(other[p] == actors[p]);
        }
    }
    assert forall|name: Seq<char>| wanted.dom().contains(name) implies by_name(other).dom().contains(
        name,
    ) by {
        let p = place_of(actors, name);
        assert(first_at(actors, name, p));
        assert(first_at(other, name, p));
    }
    assert(by_name(other) =~= wanted);
}

proof fn kept_entry(actors: Seq<RegisteredActor>, i: int, name: Seq<char>)
    requires
        0 <= i < actors.len(),
        name != actors[i]@.name(),
    ensures
        by_name(actors.remove(i)).dom().contains(name) == by_name(actors).dom().contains(name),
        by_name(actors).dom().contains(name) ==> by_name(actors.remove(i))[name] == by_name(
            actors,
        )[name],
{
    let fewer = actors.remove(i);
    actors.remove_ensures(i);
    if holds_name(actors, name) {
        let p = place_of(actors, name);
        assert(first_at(actors, name, p));
        let q = if p < i {
            p
        } else {
            p - 1
        };
        assert(fewer[q] == actors[p]);
        assert forall|k: int| 0 <= k < q implies (#[trigger] fewer[k])@.name() != name by {
            if k < i {
                assert(fewer[k] == actors[k]);
            } else {
                assert(fewer[k] == actors[k + 1]);
            }
        }
        assert(first_at(fewer, name, q));
        first_is_found(fewer, name, q);
        first_is_found(actors, name, p);
    }
    if holds_name(fewer, name) {
        let q = place_of(fewer, name);
        assert(first_at(fewer, name, q));
        let p = if q < i {
            q
        } else {
            q + 1
        };
        assert(fewer[q] == actors[p]);
        assert forall|k: int| 0 <= k < p implies (#[trigger] actors[k])@.name() != name by {
            if k < i {
                assert(fewer[k] == actors[k]);
            } else if k > i {
                assert(fewer[k - 1] == actors[k]);
            }
        }
        assert(first_at(actors, name, p));
        first_is_found(actors, name, p);
    }
}

proof fn removed_entry(actors: Seq<RegisteredActor>, i: int)
    requires
        0 <= i < actors.len(),
    ensures
        by_name(actors.remove(i)).remove(actors[i]@.name()) == by_name(actors).remove(
            actors[i]@.name(),
        ),
{
    let gone = actors[i]@.name();
    let left = by_name(actors.remove(i)).remove(gone);
    let right = by_name(actors).remove(gone);
    assert forall|name: Seq<char>| left.dom().contains(name) == right.dom().contains(name) by {
        if name != gone {
            kept_entry(actors, i, name);
        }
    }
    assert forall|name: Seq<char>| left.dom().contains(name) implies left[name] == right[name] by {
        kept_entry(actors, i, name);
    }
    assert(left =~= right);
}

/// No two entries of `actors` have the same name.
spec fn each_name_once(actors: Seq<RegisteredActor>) -> bool {
    forall|i: int, j: int|
        0 <= i < j < actors.len() ==> (#[trigger] actors[i])@.name() != (#[trigger] actors[j])@.name()
}

proof fn once_after_adding(actors: Seq<RegisteredActor>, actor: RegisteredActor)
    requires
        each_name_once(actors),
        forall|k: int| 0 <= k < actors.len() ==> (#[trigger] actors[k])@.name() != actor@.name(),
    ensures
        each_name_once(actors.push(actor)),
{
    let more = actors.push(actor);
    assert forall|i: int, j: int| 0 <= i < j < more.len() implies (#[trigger] more[i])@.name() != (
    #[trigger] more[j])@.name() by {
        assert(more[i] == actors[i]);
        if j < actors.len() {
            assert(more[j] == actors[j]);
        }
    }
}

proof fn once_after_replacing(actors: Seq<RegisteredActor>, i: int, actor: RegisteredActor)
    requires
        each_name_once(actors),
        0 <= i < actors.len(),
        actors[i]@.name() == actor@.name(),
    ensures
        each_name_once(actors.update(i, actor)),
{
    let other = actors.update(i, actor);
    assert forall|a: int, b: int| 0 <= a < b < other.len() implies (#[trigger] other[a])@.name() != (
    #[trigger] other[b])@.name() by {
        assert(other[a]@.name() == actors[a]@.name());
        assert(other[b]@.name() == actors[b]@.name());
    }
}

proof fn once_after_removing(actors: Seq<RegisteredActor>, i: int)
    requires
        each_name_once(actors),
        0 <= i < actors.len(),
    ensures
        each_name_once(actors.remove(i)),
        forall|k: int|
            0 <= k < actors.remove(i).len() ==> (#[trigger] actors.remove(i)[k])@.name()
                != actors[i]@.name(),
{
    let fewer = actors.remove(i);
    actors.remove_ensures(i);
    assert forall|k: int| 0 <= k < fewer.len() implies (#[trigger] fewer[k])@.name()
        != actors[i]@.name() by {
        if k < i {
            assert(fewer[k] == actors[k]);
        } else {
            assert(fewer[k] == actors[k + 1]);
        }
    }
    assert forall|a: int, b: int| 0 <= a < b < fewer.len() implies (#[trigger] fewer[a])@.name() != (
    #[trigger] fewer[b])@.name() by {
        let x = if a < i {
            a
        } else {
            a + 1
        };
        let y = if b < i {
            b
        } else {
            b + 1
        };
        assert(fewer[a] == actors[x]);
        assert(fewer[b] == actors[y]);
    }
}

proof fn absent_name(actors: Seq<RegisteredActor>, name: Seq<char>)
    requires
        forall|k: int| 0 <= k < actors.len() ==> (#[trigger] actors[k])@.name() != name,
    ensures
        !by_name(actors).dom().contains(name),
{
    if holds_name(actors, name) {
        let p = place_of(actors, name);
        assert(first_at(actors, name, p));
        assert(actors[p]@.name() != name);
    }
}

/// The place in `actors` of the entry that has the name `name`, if there is
/// one.
fn place_in(actors: &Vec<RegisteredActor>, name: &str) -> (place: Option<usize>)
    ensures
        match place {
            Some(i) => first_at(actors@, name@, i as int),
            None => forall|k: int| 0 <= k < actors@.len() ==> (#[trigger] actors@[k])@.name() != name@,
        },
{
    let mut i: usize = 0;
    while i < actors.len()
        invariant
            i <= actors@.len(),
            forall|k: int| 0 <= k < i ==> (#[trigger] actors@[k])@.name() != name@,
        decreases actors@.len() - i,
    {
        if same_text(actors[i].name_text(), name) {
            return Some(i);
        }
        i += 1;
    }
    None
}

/// The names that `tabs` holds, in the same order.
pub open spec fn names_of(tabs: Seq<String>) -> Seq<Seq<char>> {
    tabs.map_values(|name: String| name@)
}

/// The test that a name passes when it is not `name`.
pub open spec fn other_than(name: Seq<char>) -> spec_fn(Seq<char>) -> bool {
    |tab: Seq<char>| tab != name
}

impl View for ActorRegistry {
    type V = ActorRegistryView;

    closed spec fn view(&self) -> ActorRegistryView {
        ActorRegistryView {
            next: self.next as nat,
            actors: by_name(self.actors@),
            tabs: names_of(self.tabs@),
        }
    }
}

impl ActorRegistry {
    /// No two registered actors have the same name.
    #[verifier::type_invariant]
    spec fn each_name_once(self) -> bool {
        each_name_once(self.actors@)
    }

    /// A registry without actors, whose first generated name carries 0.
    pub fn new() -> (registry: Self)
        ensures
            registry@.next == 0,
            registry@.actors == Map::<Seq<char>, RegisteredActorView>::empty(),
            registry@.tabs == Seq::<Seq<char>>::empty(),
    {
        let registry = ActorRegistry { next: 0, actors: Vec::new(), tabs: Vec::new() };
        assert(registry@.actors =~= Map::<Seq<char>, RegisteredActorView>::empty());
        assert(registry@.tabs =~= Seq::<Seq<char>>::empty());
        registry
    }

    /// How many names this registry can still generate.
    pub fn names_left(&self) -> (left: u32)
        ensures
            left == u32::MAX - self@.next,
    {
        u32::MAX - self.next
    }

    /// Whether `name` is in use.
    pub fn is_in_use(&self, name: &str) -> (used: bool)
        ensures
            used == self@.in_use(name@),
    {
        if self.find(name).is_some() {
            return true;
        }
        let mut i: usize = 0;
        while i < self.tabs.len()
            invariant
                i <= self.tabs@.len(),
                forall|k: int| 0 <= k < i ==> (#[trigger] names_of(self.tabs@)[k]) != name@,
            decreases self.tabs@.len() - i,
        {
            if same_text(self.tabs[i].as_str(), name) {
                assert(names_of(self.tabs@)[i as int] == name@);
                return true;
            }
            i += 1;
        }
        false
    }

    /// Whether the registry can hand out the name that `prefix` makes with
    /// the number `ahead` steps after the next one.
    pub fn can_name(&self, prefix: &str, ahead: u32) -> (can: bool)
        ensures
            can == self@.can_name(prefix@, ahead as nat),
    {
        if ahead >= u32::MAX - self.next {
            return false;
        }
        let candidate = numbered(prefix, self.next + ahead);
        !self.is_in_use(candidate.as_str())
    }

    /// A new name: `prefix`, then the registry's number in base ten. The
    /// name is one that nothing in the registry uses, and the number goes up
    /// by one, so no later name of this prefix is the same.
    pub fn new_name(&mut self, prefix: &str) -> (name: String)
        requires
            old(self)@.can_name(prefix@, 0),
        ensures
            name@ == numbered_name(prefix@, old(self)@.next),
            !old(self)@.in_use(name@),
            final(self)@.next == old(self)@.next + 1,
            final(self)@.actors == old(self)@.actors,
            final(self)@.tabs == old(self)@.tabs,
    {
        proof {
            use_type_invariant(&*self);
        }
        let suffix = self.next;
        self.next = suffix + 1;
        numbered(prefix, suffix)
    }

    /// Puts `actor` under its name. An actor that had this name before is
    /// replaced.
    pub fn register(&mut self, actor: RegisteredActor)
        ensures
            final(self)@.actors == old(self)@.actors.insert(actor@.name(), actor@),
            final(self)@.next == old(self)@.next,
            final(self)@.tabs == old(self)@.tabs,
    {
        proof {
            use_type_invariant(&*self);
        }
        let mut actors: Vec<RegisteredActor> = Vec::new();
        core::mem::swap(&mut self.actors, &mut actors);
        match place_in(&actors, actor.name_text()) {
            Some(i) => {
                proof {
                    replaced_entry(actors@, i as int, actor);
                    once_after_replacing(actors@, i as int, actor);
                }
                actors.set(i, actor);
            },
            None => {
                proof {
                    added_entry(actors@, actor);
                    once_after_adding(actors@, actor);
                }
                actors.push(actor);
            },
        }
        self.actors = actors;
    }

    /// Takes the actor registered under `name` out of the registry and hands
    /// it back, if there was one.
    pub fn remove(&mut self, name: &str) -> (removed: Option<RegisteredActor>)
        ensures
            removed.is_some() == old(self)@.actors.dom().contains(name@),
            removed.is_some() ==> removed.unwrap()@ == old(self)@.actors[name@],
            final(self)@.actors == old(self)@.actors.remove(name@),
            final(self)@.next == old(self)@.next,
            final(self)@.tabs == old(self)@.tabs,
    {
        proof {
            use_type_invariant(&*self);
        }
        let mut actors: Vec<RegisteredActor> = Vec::new();
        core::mem::swap(&mut self.actors, &mut actors);
        let ghost before = actors@;
        let removed = match place_in(&actors, name) {
            Some(i) => {
                proof {
                    first_is_found(before, name@, i as int);
                    removed_entry(before, i as int);
                    once_after_removing(before, i as int);
                    absent_name(before.remove(i as int), name@);
                    assert(by_name(before.remove(i as int)).remove(name@) =~= by_name(
                        before.remove(i as int),
                    ));
                }
                Some(actors.remove(i))
            },
            None => {
                proof {
                    absent_name(before, name@);
                    assert(by_name(before).remove(name@) =~= by_name(before));
                }
                None
            },
        };
        self.actors = actors;
        removed
    }

    /// The actor registered under `name`, if there is one.
    pub fn find(&self, name: &str) -> (found: Option<&RegisteredActor>)
        ensures
            found.is_some() == self@.actors.dom().contains(name@),
            found.is_some() ==> found.unwrap()@ == self@.actors[name@],
            found.is_some() ==> found.unwrap()@.name() == name@,
    {
        match place_in(&self.actors, name) {
            Some(i) => {
                proof {
                    first_is_found(self.actors@, name@, i as int);
                }
                Some(&self.actors[i])
            },
            None => {
                proof {
                    absent_name(self.actors@, name@);
                }
                None
            },
        }
    }

    /// The browsing context registered under `name`. The caller has to know
    /// that there is one: an actor holds only names that were registered.
    pub fn find_browsing_context(&self, name: &str) -> (context: &BrowsingContextActor)
        requires
            self@.has_browsing_context(name@),
        ensures
            context@ == self@.browsing_context(name@),
            context@.name == name@,
    {
        match self.find(name) {
            Some(RegisteredActor::BrowsingContext(context)) => context,
            _ => {
                proof {
                    assert(false);
                }
                vstd::pervasive::unreached()
            },
        }
    }

    /// Every actor is held under its own name: the name by which it is found
    /// is the name that it carries.
    pub proof fn held_under_own_name(&self, name: Seq<char>)
        requires
            self@.actors.dom().contains(name),
        ensures
            self@.actors[name].name() == name,
    {
        let p = place_of(self.actors@, name);
        assert(first_at(self.actors@, name, p));
    }

    /// The names of the tab descriptors, in the order of their creation.
    pub fn tabs(&self) -> (tabs: &Vec<String>)
        ensures
            names_of(tabs@) == self@.tabs,
    {
        &self.tabs
    }

    /// Adds `name` at the end of the root actor's list of tabs.
    pub fn add_tab(&mut self, name: String)
        ensures
            final(self)@.tabs == old(self)@.tabs.push(name@),
            final(self)@.next == old(self)@.next,
            final(self)@.actors == old(self)@.actors,
    {
        proof {
            use_type_invariant(&*self);
        }
        let mut tabs: Vec<String> = Vec::new();
        core::mem::swap(&mut self.tabs, &mut tabs);
        tabs.push(name);
        assert(names_of(tabs@) =~= names_of(old(self).tabs@).push(name@));
        self.tabs = tabs;
    }

    /// Takes `name` out of the root actor's list of tabs, wherever it stands
    /// there. The other names keep their order.
    pub fn remove_tab(&mut self, name: &str)
        ensures
            final(self)@.tabs == old(self)@.tabs.filter(other_than(name@)),
            final(self)@.next == old(self)@.next,
            final(self)@.actors == old(self)@.actors,
    {
        let ghost all = names_of(self.tabs@);
        let mut kept: Vec<String> = Vec::new();
        let mut i: usize = 0;
        proof {
            reveal(Seq::filter);
            assert(names_of(kept@) =~= all.take(0).filter(other_than(name@)));
        }
        while i < self.tabs.len()
            invariant
                i <= self.tabs@.len(),
                all == names_of(self.tabs@),
                names_of(kept@) == all.take(i as int).filter(other_than(name@)),
            decreases self.tabs@.len() - i,
        {
            proof {
                reveal(Seq::filter);
                assert(all.take(i + 1).drop_last() =~= all.take(i as int));
                assert(all.take(i + 1).last() == self.tabs@[i as int]@);
            }
            let ghost before = names_of(kept@);
            if !same_text(self.tabs[i].as_str(), name) {
                let tab = self.tabs[i].clone();
                kept.push(tab);
                assert(names_of(kept@) =~= before.push(tab@));
            }
            i += 1;
        }
        assert(all.take(i as int) =~= all);
        proof {
            use_type_invariant(&*self);
        }
        self.tabs = kept;
    }
}

} // verus!
