//! The tab descriptor: the actor that presents one tab to the client. It
//! answers requests for the tab's target, its favicon and its watcher.

use vstd::prelude::*;
use crate::actor::{
    other_than, Actor, ActorMessageStatus, ActorRegistry, ActorRegistryView, Handled,
    RegisteredActor, RegisteredActorView,
};
use crate::browsing_context::{BrowsingContextActorMsg, BrowsingContextMsgView};
use crate::json::field_names;
use crate::text::{numbered_name, same_text};
use crate::traits::{capabilities_are_one_constant, WatcherTraits};
use crate::watcher::{WatcherActor, WatcherActorView, WatcherMsgView};

verus! {

/// What a tab descriptor can do: it has a watcher, and it cannot reload.
#[allow(non_snake_case)]
#[derive(Clone, Copy, Debug, PartialEq, Eq, Structural)]
pub struct TabDescriptorTraits {
    pub watcher: bool,
    pub supportsReloadDescriptor: bool,
}

/// The description of a tab that is sent to the client.
#[allow(non_snake_case)]
#[derive(Debug)]
pub struct TabDescriptorActorMsg {
    pub actor: String,
    pub title: String,
    pub url: String,
    pub outerWindowID: u32,
    pub browsingContextId: u32,
    pub browserId: u32,
    pub selected: bool,
    pub isZombieTab: bool,
    pub traits: TabDescriptorTraits,
}

/// What a `TabDescriptorActorMsg` holds, as mathematical values.
#[allow(non_snake_case)]
pub struct TabDescriptorMsgView {
    pub actor: Seq<char>,
    pub title: Seq<char>,
    pub url: Seq<char>,
    pub outerWindowID: u32,
    pub browsingContextId: u32,
    pub browserId: u32,
    pub selected: bool,
    pub isZombieTab: bool,
    pub traits: TabDescriptorTraits,
}

impl View for TabDescriptorActorMsg {
    type V = TabDescriptorMsgView;

    open spec fn view(&self) -> TabDescriptorMsgView {
        TabDescriptorMsgView {
            actor: self.actor@,
            title: self.title@,
            url: self.url@,
            outerWindowID: self.outerWindowID,
            browsingContextId: self.browsingContextId,
            browserId: self.browserId,
            selected: self.selected,
            isZombieTab: self.isZombieTab,
            traits: self.traits,
        }
    }
}

/// The answer to `getTarget`: the tab's browsing context.
#[derive(Debug)]
pub struct GetTargetReply {
    pub from: String,
    pub frame: BrowsingContextActorMsg,
}

/// The answer to `getFavicon`.
#[derive(Debug)]
pub struct GetFaviconReply {
    pub from: String,
    pub favicon: String,
}

/// The answer to `getWatcher`: the tab's watcher and what it can forward.
#[derive(Debug)]
pub struct GetWatcherReply {
    pub from: String,
    pub actor: String,
    pub traits: WatcherTraits,
}

/// A reply of a tab descriptor.
#[derive(Debug)]
pub enum TabDescriptorReply {
    Target(GetTargetReply),
    Favicon(GetFaviconReply),
    Watcher(GetWatcherReply),
}

/// A reply of a tab descriptor, as mathematical values.
pub enum TabDescriptorReplyView {
    Target { from: Seq<char>, frame: BrowsingContextMsgView },
    Favicon { from: Seq<char>, favicon: Seq<char> },
    Watcher { from: Seq<char>, actor: Seq<char>, traits: WatcherTraits },
}

impl View for TabDescriptorReply {
    type V = TabDescriptorReplyView;

    open spec fn view(&self) -> TabDescriptorReplyView {
        match self {
            TabDescriptorReply::Target(reply) => TabDescriptorReplyView::Target {
                from: reply.from@,
                frame: reply.frame@,
            },
            TabDescriptorReply::Favicon(reply) => TabDescriptorReplyView::Favicon {
                from: reply.from@,
                favicon: reply.favicon@,
            },
            TabDescriptorReply::Watcher(reply) => TabDescriptorReplyView::Watcher {
                from: reply.from@,
                actor: reply.actor@,
                traits: reply.traits,
            },
        }
    }
}

/// The messages that a tab descriptor knows.
#[derive(Clone, Copy, Debug, PartialEq, Eq, Structural)]
pub enum TabDescriptorRequest {
    GetTarget,
    GetFavicon,
    GetWatcher,
    Unhandled,
}

impl TabDescriptorRequest {
    /// The request that a message of type `msg_type` makes.
    pub open spec fn of_type(msg_type: Seq<char>) -> TabDescriptorRequest {
        if msg_type == "getTarget"@ {
            TabDescriptorRequest::GetTarget
        } else if msg_type == "getFavicon"@ {
            TabDescriptorRequest::GetFavicon
        } else if msg_type == "getWatcher"@ {
            TabDescriptorRequest::GetWatcher
        } else {
            TabDescriptorRequest::Unhandled
        }
    }

    /// The request that a message of type `msg_type` makes.
    pub fn parse(msg_type: &str) -> (request: TabDescriptorRequest)
        ensures
            request == TabDescriptorRequest::of_type(msg_type@),
    {
        if same_text(msg_type, "getTarget") {
            TabDescriptorRequest::GetTarget
        } else if same_text(msg_type, "getFavicon") {
            TabDescriptorRequest::GetFavicon
        } else if same_text(msg_type, "getWatcher") {
            TabDescriptorRequest::GetWatcher
        } else {
            TabDescriptorRequest::Unhandled
        }
    }
}

/// The descriptor of one tab. It holds its browsing context and its watcher
/// by name only.
#[derive(Debug)]
pub struct TabDescriptorActor {
    name: String,
    browsing_context_actor: String,
    watcher_actor_name: String,
}

/// What a `TabDescriptorActor` holds, as mathematical values.
pub struct TabDescriptorView {
    pub name: Seq<char>,
    pub browsing_context_actor: Seq<char>,
    pub watcher_actor_name: Seq<char>,
}

impl View for TabDescriptorActor {
    type V = TabDescriptorView;

    closed spec fn view(&self) -> TabDescriptorView {
        TabDescriptorView {
            name: self.name@,
            browsing_context_actor: self.browsing_context_actor@,
            watcher_actor_name: self.watcher_actor_name@,
        }
    }
}

impl TabDescriptorView {
    /// The description of this tab: title and address are those that the
    /// browsing context has in `registry`, the outer window and the browser
    /// are both its active pipeline, and the tab is never a zombie.
    pub open spec fn description(self, registry: ActorRegistryView, selected: bool) -> TabDescriptorMsgView {
        let context = registry.browsing_context(self.browsing_context_actor);
        TabDescriptorMsgView {
            actor: self.name,
            title: context.title,
            url: context.url,
            outerWindowID: context.active_pipeline,
            browsingContextId: context.browsing_context_id,
            browserId: context.active_pipeline,
            selected,
            isZombieTab: false,
            traits: TabDescriptorTraits { watcher: true, supportsReloadDescriptor: false },
        }
    }

    /// The status that this descriptor reports of a message of type
    /// `msg_type`.
    pub open spec fn status(self, msg_type: Seq<char>) -> ActorMessageStatus {
        if TabDescriptorRequest::of_type(msg_type) == TabDescriptorRequest::Unhandled {
            ActorMessageStatus::Ignored
        } else {
            ActorMessageStatus::Processed
        }
    }

    /// Whether `reply` is what this descriptor answers to a message of type
    /// `msg_type`, with the registry as it is.
    pub open spec fn answers(
        self,
        registry: ActorRegistryView,
        msg_type: Seq<char>,
        reply: Option<TabDescriptorReplyView>,
    ) -> bool {
        match TabDescriptorRequest::of_type(msg_type) {
            TabDescriptorRequest::GetTarget => reply == Some(
                TabDescriptorReplyView::Target {
                    from: self.name,
                    frame: registry.browsing_context(self.browsing_context_actor).snapshot(),
                },
            ),
            TabDescriptorRequest::GetFavicon => reply == Some(
                TabDescriptorReplyView::Favicon { from: self.name, favicon: Seq::<char>::empty() },
            ),
            TabDescriptorRequest::GetWatcher => {
                &&& reply matches Some(TabDescriptorReplyView::Watcher { from, actor, traits })
                &&& from == self.name
                &&& actor == self.watcher_actor_name
                &&& traits.frames_and_console_messages_only()
            },
            TabDescriptorRequest::Unhandled => reply is None,
        }
    }
}

impl TabDescriptorActor {
    /// Whether a descriptor can be made with `registry`: the names that it
    /// and its watcher would get are within reach and not in use.
    pub open spec fn creatable(registry: ActorRegistryView) -> bool {
        registry.can_name("tabDescription"@, 0) && registry.can_name("watcher"@, 1)
    }

    /// Whether a descriptor can be made with `actors`.
    pub fn can_create(actors: &ActorRegistry) -> (can: bool)
        ensures
            can == TabDescriptorActor::creatable(actors@),
    {
        actors.can_name("tabDescription", 0) && actors.can_name("watcher", 1)
    }

    /// A descriptor of the tab that shows the browsing context named
    /// `browsing_context_actor`. Its watcher is made and registered at once,
    /// and the descriptor's name is added to the root actor's list of tabs.
    /// Both names are new: nothing in the registry used them, so no actor is
    /// replaced and the list of tabs gets no name twice.
    pub fn new(actors: &mut ActorRegistry, browsing_context_actor: String) -> (tab: TabDescriptorActor)
        requires
            TabDescriptorActor::creatable(old(actors)@),
        ensures
            tab@.name == numbered_name("tabDescription"@, old(actors)@.next),
            tab@.browsing_context_actor == browsing_context_actor@,
            tab@.watcher_actor_name == numbered_name("watcher"@, old(actors)@.next + 1),
            tab@.name != tab@.watcher_actor_name,
            !old(actors)@.in_use(tab@.name),
            !old(actors)@.in_use(tab@.watcher_actor_name),
            final(actors)@.next == old(actors)@.next + 2,
            final(actors)@.actors == old(actors)@.actors.insert(
                tab@.watcher_actor_name,
                RegisteredActorView::Watcher(
                    WatcherActorView {
                        name: tab@.watcher_actor_name,
                        browsing_context_actor: browsing_context_actor@,
                    },
                ),
            ),
            forall|name: Seq<char>| #[trigger]
                old(actors)@.actors.dom().contains(name) ==> final(actors)@.actors.dom().contains(
                    name,
                ) && final(actors)@.actors[name] == old(actors)@.actors[name],
            final(actors)@.has_watcher(tab@.watcher_actor_name),
            final(actors)@.tabs == old(actors)@.tabs.push(tab@.name),
            final(actors)@.tabs.contains(tab@.name),
            old(actors)@.tabs.no_duplicates() ==> final(actors)@.tabs.no_duplicates(),
    {
        let name = actors.new_name("tabDescription");
        let watcher = WatcherActor::new(actors, browsing_context_actor.clone());
        let watcher_actor_name = watcher.name();
        actors.register(RegisteredActor::Watcher(watcher));
        actors.add_tab(name.clone());
        proof {
            prefixes_differ(old(actors)@.next, old(actors)@.next + 1);
            assert(!old(actors)@.tabs.contains(name@));
            assert(actors@.tabs.last() == name@);
            assert forall|i: int, j: int|
                old(actors)@.tabs.no_duplicates() && 0 <= i < j < actors@.tabs.len()
                implies actors@.tabs[i] != actors@.tabs[j] by {
                if j == old(actors)@.tabs.len() {
                    assert(old(actors)@.tabs[i] == actors@.tabs[i]);
                    assert(old(actors)@.tabs.contains(actors@.tabs[i]));
                }
            }
        }
        TabDescriptorActor { name, browsing_context_actor, watcher_actor_name }
    }

    /// The description of this tab as it is now.
    pub fn encodable(&self, registry: &ActorRegistry, selected: bool) -> (msg: TabDescriptorActorMsg)
        requires
            registry@.has_browsing_context(self@.browsing_context_actor),
        ensures
            msg@ == self@.description(registry@, selected),
    {
        let ctx_actor = registry.find_browsing_context(self.browsing_context_actor.as_str());
        let title = ctx_actor.title.clone();
        let url = ctx_actor.url.clone();
        TabDescriptorActorMsg {
            title,
            url,
            actor: self.name(),
            browsingContextId: ctx_actor.browsing_context_id,
            outerWindowID: ctx_actor.active_pipeline,
            browserId: ctx_actor.active_pipeline,
            selected,
            isZombieTab: false,
            traits: TabDescriptorTraits { watcher: true, supportsReloadDescriptor: false },
        }
    }

    /// Whether the registry holds what this descriptor looks up for a message
    /// of type `msg_type` with the body `msg`: the handler can be called
    /// exactly when this is so.
    pub fn can_handle(
        &self,
        registry: &ActorRegistry,
        msg_type: &str,
        msg: &serde_json::Map<String, serde_json::Value>,
    ) -> (can: bool)
        ensures
            can == self.can_resolve(registry@, msg_type@, field_names(*msg)),
    {
        if TabDescriptorRequest::parse(msg_type) == TabDescriptorRequest::GetTarget {
            self.can_describe(registry)
        } else {
            true
        }
    }

    /// Whether the registry holds the browsing context of this tab, so that
    /// the tab can be described.
    pub fn can_describe(&self, registry: &ActorRegistry) -> (can: bool)
        ensures
            can == registry@.has_browsing_context(self@.browsing_context_actor),
    {
        match registry.find(self.browsing_context_actor.as_str()) {
            Some(RegisteredActor::BrowsingContext(_)) => true,
            _ => false,
        }
    }

    /// Ends the life of this descriptor when its tab closes: the watcher and
    /// the descriptor leave the registry, and the descriptor's name leaves
    /// the root actor's list of tabs.
    pub fn destroy(self, actors: &mut ActorRegistry)
        ensures
            final(actors)@.actors == old(actors)@.actors.remove(self@.watcher_actor_name).remove(
                self@.name,
            ),
            final(actors)@.tabs == old(actors)@.tabs.filter(other_than(self@.name)),
            final(actors)@.next == old(actors)@.next,
    {
        actors.remove(self.watcher_actor_name.as_str());
        actors.remove(self.name.as_str());
        actors.remove_tab(self.name.as_str());
    }

    pub(crate) fn name_text(&self) -> (name: &str)
        ensures
            name@ == self@.name,
    {
        self.name.as_str()
    }

    /// The name of the browsing context that this tab shows.
    pub fn browsing_context_actor(&self) -> (name: &str)
        ensures
            name@ == self@.browsing_context_actor,
    {
        self.browsing_context_actor.as_str()
    }

    /// The name of this tab's watcher.
    pub fn watcher_actor_name(&self) -> (name: &str)
        ensures
            name@ == self@.watcher_actor_name,
    {
        self.watcher_actor_name.as_str()
    }
}

impl Actor for TabDescriptorActor {
    type Reply = TabDescriptorReply;

    open spec fn actor_name(&self) -> Seq<char> {
        self@.name
    }

    open spec fn can_resolve(
        &self,
        registry: ActorRegistryView,
        msg_type: Seq<char>,
        fields: Set<Seq<char>>,
    ) -> bool {
        TabDescriptorRequest::of_type(msg_type) == TabDescriptorRequest::GetTarget
            ==> registry.has_browsing_context(self@.browsing_context_actor)
    }

    fn name(&self) -> (name: String) {
        self.name.clone()
    }

    /// `getTarget` is answered with the browsing context, `getFavicon` with
    /// an empty favicon, `getWatcher` with the watcher's name and what it can
    /// forward. Everything else is ignored.
    fn handle_message(
        &self,
        registry: &ActorRegistry,
        msg_type: &str,
        msg: &serde_json::Map<String, serde_json::Value>,
    ) -> (handled: Handled<TabDescriptorReply>)
        ensures
            handled.status == self@.status(msg_type@),
            self@.answers(
                registry@,
                msg_type@,
                match handled.reply {
                    Some(reply) => Some(reply@),
                    None => None,
                },
            ),
            handled.reply matches Some(TabDescriptorReply::Target(reply)) ==> reply.frame@.actor
                == self@.browsing_context_actor,
    {
        match TabDescriptorRequest::parse(msg_type) {
            TabDescriptorRequest::GetTarget => {
                let frame = registry.find_browsing_context(
                    self.browsing_context_actor.as_str(),
                ).encodable();
                Handled {
                    status: ActorMessageStatus::Processed,
                    reply: Some(
                        TabDescriptorReply::Target(GetTargetReply { from: self.name(), frame }),
                    ),
                }
            },
            TabDescriptorRequest::GetFavicon => {
                Handled {
                    status: ActorMessageStatus::Processed,
                    reply: Some(
                        TabDescriptorReply::Favicon(
                            GetFaviconReply { from: self.name(), favicon: String::new() },
                        ),
                    ),
                }
            },
            TabDescriptorRequest::GetWatcher => {
                Handled {
                    status: ActorMessageStatus::Processed,
                    reply: Some(
                        TabDescriptorReply::Watcher(
                            GetWatcherReply {
                                from: self.name(),
                                actor: self.watcher_actor_name.clone(),
                                traits: WatcherTraits::new(),
                            },
                        ),
                    ),
                }
            },
            TabDescriptorRequest::Unhandled => Handled {
                status: ActorMessageStatus::Ignored,
                reply: None,
            },
        }
    }
}

/// A descriptor and a watcher never get the same name, whatever numbers the
/// two names carry.
pub proof fn prefixes_differ(tab_number: nat, watcher_number: nat)
    ensures
        numbered_name("tabDescription"@, tab_number) != numbered_name("watcher"@, watcher_number),
{
    reveal_strlit("tabDescription");
    reveal_strlit("watcher");
    let tab = numbered_name("tabDescription"@, tab_number);
    let watcher = numbered_name("watcher"@, watcher_number);
    assert(tab[0] == "tabDescription"@[0]);
    assert(watcher[0] == "watcher"@[0]);
}

/// The answer to `getTarget` shows the browsing context as the registry
/// holds it at that moment: its title and its address are the current ones.
pub proof fn target_is_read_at_call_time(
    tab: TabDescriptorView,
    registry: ActorRegistryView,
    reply: Option<TabDescriptorReplyView>,
)
    requires
        tab.answers(registry, "getTarget"@, reply),
    ensures
        reply matches Some(TabDescriptorReplyView::Target { from, frame }) && from == tab.name
            && frame.title == registry.browsing_context(tab.browsing_context_actor).title
            && frame.url == registry.browsing_context(tab.browsing_context_actor).url,
{
}

/// The answer to `getFavicon` is an empty favicon, whatever the registry
/// holds.
pub proof fn favicon_is_always_empty(
    tab: TabDescriptorView,
    registry: ActorRegistryView,
    reply: Option<TabDescriptorReplyView>,
)
    requires
        tab.answers(registry, "getFavicon"@, reply),
    ensures
        tab.status("getFavicon"@) == ActorMessageStatus::Processed,
        reply == Some(
            TabDescriptorReplyView::Favicon { from: tab.name, favicon: Seq::<char>::empty() },
        ),
{
    reveal_strlit("getFavicon");
    reveal_strlit("getTarget");
    assert("getFavicon"@.len() != "getTarget"@.len());
}

/// Two answers of one descriptor to `getWatcher` are the same, whatever the
/// registry held at either time: the watcher's name and what the watcher can
/// forward never change.
pub proof fn watcher_answer_never_changes(
    tab: TabDescriptorView,
    first_registry: ActorRegistryView,
    second_registry: ActorRegistryView,
    first: Option<TabDescriptorReplyView>,
    second: Option<TabDescriptorReplyView>,
)
    requires
        tab.answers(first_registry, "getWatcher"@, first),
        tab.answers(second_registry, "getWatcher"@, second),
    ensures
        tab.status("getWatcher"@) == ActorMessageStatus::Processed,
        first == second,
        first matches Some(TabDescriptorReplyView::Watcher { from, actor, traits }) && from
            == tab.name && actor == tab.watcher_actor_name,
{
    reveal_strlit("getWatcher");
    reveal_strlit("getTarget");
    reveal_strlit("getFavicon");
    assert("getWatcher"@.len() != "getTarget"@.len());
    assert("getWatcher"@[3] != "getFavicon"@[3]);
    assert(TabDescriptorRequest::of_type("getWatcher"@) == TabDescriptorRequest::GetWatcher);
    match (first, second) {
        (
            Some(TabDescriptorReplyView::Watcher { traits: a, .. }),
            Some(TabDescriptorReplyView::Watcher { traits: b, .. }),
        ) => {
            capabilities_are_one_constant(a, b);
        },
        _ => {},
    }
}

/// While the watcher that a descriptor holds is registered, which it is from
/// the descriptor's creation on, the answer to `getWatcher` names an actor
/// that the registry resolves to a watcher.
pub proof fn named_watcher_resolves(
    tab: TabDescriptorView,
    registry: ActorRegistryView,
    reply: Option<TabDescriptorReplyView>,
)
    requires
        registry.has_watcher(tab.watcher_actor_name),
        tab.answers(registry, "getWatcher"@, reply),
    ensures
        tab.status("getWatcher"@) == ActorMessageStatus::Processed,
        reply matches Some(TabDescriptorReplyView::Watcher { from, actor, traits }) && from
            == tab.name && actor == tab.watcher_actor_name && registry.has_watcher(actor)
            && traits.frames_and_console_messages_only(),
{
    watcher_answer_never_changes(tab, registry, registry, reply, reply);
}

/// What a watcher says of itself and what its descriptor says of it are the
/// same capabilities.
pub proof fn watcher_is_described_alike(
    tab: TabDescriptorView,
    registry: ActorRegistryView,
    reply: Option<TabDescriptorReplyView>,
    description: WatcherMsgView,
)
    requires
        tab.answers(registry, "getWatcher"@, reply),
        description.traits.frames_and_console_messages_only(),
    ensures
        reply matches Some(TabDescriptorReplyView::Watcher { from, actor, traits }) && traits
            == description.traits,
{
    watcher_answer_never_changes(tab, registry, registry, reply, reply);
    match reply {
        Some(TabDescriptorReplyView::Watcher { traits, .. }) => {
            capabilities_are_one_constant(traits, description.traits);
        },
        _ => {},
    }
}

/// A message of a type that the descriptor does not know is ignored, and
/// nothing is sent for it.
pub proof fn unknown_type_is_ignored(
    tab: TabDescriptorView,
    registry: ActorRegistryView,
    msg_type: Seq<char>,
    reply: Option<TabDescriptorReplyView>,
)
    requires
        msg_type != "getTarget"@,
        msg_type != "getFavicon"@,
        msg_type != "getWatcher"@,
        tab.answers(registry, msg_type, reply),
    ensures
        tab.status(msg_type) == ActorMessageStatus::Ignored,
        reply is None,
{
}

} // verus!
