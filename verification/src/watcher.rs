//! The watcher: the actor through which a client subscribes to the targets
//! and resources of one browsing context.

use vstd::prelude::*;
use crate::actor::{
    Actor, ActorMessageStatus, ActorRegistry, ActorRegistryView, Handled, RegisteredActor,
};
use crate::browsing_context::{BrowsingContextActorMsg, BrowsingContextMsgView};
use crate::json::{field_names, has_field};
use crate::text::{numbered_name, same_text};
use crate::traits::WatcherTraits;

verus! {

/// The notice that a target can now be attached to.
#[derive(Debug)]
pub struct TargetAvailableMsg {
    pub type_: String,
    pub target: BrowsingContextActorMsg,
    pub from: String,
}

/// What a `TargetAvailableMsg` holds, as mathematical values.
pub struct TargetAvailableView {
    pub type_: Seq<char>,
    pub target: BrowsingContextMsgView,
    pub from: Seq<char>,
}

impl View for TargetAvailableMsg {
    type V = TargetAvailableView;

    open spec fn view(&self) -> TargetAvailableView {
        TargetAvailableView { type_: self.type_@, target: self.target@, from: self.from@ }
    }
}

/// The notice that resources of a watched kind have appeared. No watcher
/// sends it yet.
#[derive(Debug)]
pub struct ResourceAvailableMsg {
    pub type_: String,
    pub resources: Vec<serde_json::Value>,
}

/// The description of a watcher that is sent to the client.
#[derive(Debug)]
pub struct WatcherActorMsg {
    pub actor: String,
    pub traits: WatcherTraits,
}

/// What a `WatcherActorMsg` holds, as mathematical values.
pub struct WatcherMsgView {
    pub actor: Seq<char>,
    pub traits: WatcherTraits,
}

impl View for WatcherActorMsg {
    type V = WatcherMsgView;

    open spec fn view(&self) -> WatcherMsgView {
        WatcherMsgView { actor: self.actor@, traits: self.traits }
    }
}

/// The messages that a watcher knows.
#[derive(Clone, Copy, Debug, PartialEq, Eq, Structural)]
pub enum WatcherRequest {
    WatchTargets,
    WatchResources,
    Unhandled,
}

impl WatcherRequest {
    /// The request that a message of type `msg_type` makes.
    pub open spec fn of_type(msg_type: Seq<char>) -> WatcherRequest {
        if msg_type == "watchTargets"@ {
            WatcherRequest::WatchTargets
        } else if msg_type == "watchResources"@ {
            WatcherRequest::WatchResources
        } else {
            WatcherRequest::Unhandled
        }
    }

    /// The request that a message of type `msg_type` makes.
    pub fn parse(msg_type: &str) -> (request: WatcherRequest)
        ensures
            request == WatcherRequest::of_type(msg_type@),
    {
        if same_text(msg_type, "watchTargets") {
            WatcherRequest::WatchTargets
        } else if same_text(msg_type, "watchResources") {
            WatcherRequest::WatchResources
        } else {
            WatcherRequest::Unhandled
        }
    }
}

/// The watcher of one browsing context. It holds the browsing context by
/// name only.
#[derive(Debug)]
pub struct WatcherActor {
    name: String,
    browsing_context_actor: String,
}

/// What a `WatcherActor` holds, as mathematical values.
pub struct WatcherActorView {
    pub name: Seq<char>,
    pub browsing_context_actor: Seq<char>,
}

impl View for WatcherActor {
    type V = WatcherActorView;

    closed spec fn view(&self) -> WatcherActorView {
        WatcherActorView {
            name: self.name@,
            browsing_context_actor: self.browsing_context_actor@,
        }
    }
}

impl WatcherActorView {
    /// Whether a message of type `msg_type` with the fields `fields` asks
    /// this watcher to announce its target.
    pub open spec fn announces(self, msg_type: Seq<char>, fields: Set<Seq<char>>) -> bool {
        WatcherRequest::of_type(msg_type) == WatcherRequest::WatchTargets && fields.contains(
            "targetType"@,
        )
    }

    /// The notice that this watcher sends when its target is announced: the
    /// watched browsing context as the registry holds it now.
    pub open spec fn announcement(self, registry: ActorRegistryView) -> TargetAvailableView {
        TargetAvailableView {
            type_: "target-available-form"@,
            target: registry.browsing_context(self.browsing_context_actor).snapshot(),
            from: self.name,
        }
    }

    /// The status that this watcher reports of a message of type `msg_type`
    /// with the fields `fields`.
    pub open spec fn status(self, msg_type: Seq<char>, fields: Set<Seq<char>>) -> ActorMessageStatus {
        match WatcherRequest::of_type(msg_type) {
            WatcherRequest::WatchTargets => if fields.contains("targetType"@) {
                ActorMessageStatus::Processed
            } else {
                ActorMessageStatus::Ignored
            },
            WatcherRequest::WatchResources => ActorMessageStatus::Processed,
            WatcherRequest::Unhandled => ActorMessageStatus::Ignored,
        }
    }
}

impl WatcherActor {
    /// Whether a watcher can be made with `registry`: the name that it would
    /// get is within reach and not in use.
    pub open spec fn creatable(registry: ActorRegistryView) -> bool {
        registry.can_name("watcher"@, 0)
    }

    /// Whether a watcher can be made with `actors`.
    pub fn can_create(actors: &ActorRegistry) -> (can: bool)
        ensures
            can == WatcherActor::creatable(actors@),
    {
        actors.can_name("watcher", 0)
    }

    /// A watcher of the browsing context named `browsing_context_actor`,
    /// under a new name that nothing in the registry uses. Nothing is
    /// registered.
    pub fn new(actors: &mut ActorRegistry, browsing_context_actor: String) -> (watcher: WatcherActor)
        requires
            WatcherActor::creatable(old(actors)@),
        ensures
            watcher@.name == numbered_name("watcher"@, old(actors)@.next),
            !old(actors)@.in_use(watcher@.name),
            watcher@.browsing_context_actor == browsing_context_actor@,
            final(actors)@.next == old(actors)@.next + 1,
            final(actors)@.actors == old(actors)@.actors,
            final(actors)@.tabs == old(actors)@.tabs,
    {
        let name = actors.new_name("watcher");
        WatcherActor { name, browsing_context_actor }
    }

    /// The description of this watcher: its name and what it can forward.
    pub fn encodable(&self) -> (msg: WatcherActorMsg)
        ensures
            msg@.actor == self@.name,
            msg@.traits.frames_and_console_messages_only(),
    {
        WatcherActorMsg { actor: self.name(), traits: WatcherTraits::new() }
    }

    /// Whether the registry holds what this watcher looks up for a message
    /// of type `msg_type` with the body `msg`: the handler can be called
    /// exactly when this is so.
    pub fn can_handle(
        &self,
        registry: &ActorRegistry,
        msg_type: &str,
        msg: &serde_json::Map<String, serde_json::Value>,
    ) -> (can: bool)
        ensures
            can == self.can_resolve(registry@, msg_type@, field_names(*msg)),
    {
        if WatcherRequest::parse(msg_type) == WatcherRequest::WatchTargets && has_field(
            msg,
            "targetType",
        ) {
            match registry.find(self.browsing_context_actor.as_str()) {
                Some(RegisteredActor::BrowsingContext(_)) => true,
                _ => false,
            }
        } else {
            true
        }
    }

    /// The name of the browsing context that this watcher watches.
    pub fn browsing_context_actor(&self) -> (name: &str)
        ensures
            name@ == self@.browsing_context_actor,
    {
        self.browsing_context_actor.as_str()
    }

    pub(crate) fn name_text(&self) -> (name: &str)
        ensures
            name@ == self@.name,
    {
        self.name.as_str()
    }
}

impl Actor for WatcherActor {
    type Reply = TargetAvailableMsg;

    open spec fn actor_name(&self) -> Seq<char> {
        self@.name
    }

    open spec fn can_resolve(
        &self,
        registry: ActorRegistryView,
        msg_type: Seq<char>,
        fields: Set<Seq<char>>,
    ) -> bool {
        self@.announces(msg_type, fields) ==> registry.has_browsing_context(
            self@.browsing_context_actor,
        )
    }

    fn name(&self) -> (name: String) {
        self.name.clone()
    }

    /// `watchTargets` with a `targetType` field announces the watched
    /// browsing context, whatever the field holds. Without that field the
    /// message is ignored like one of an unknown type: no error is sent.
    /// `watchResources` is processed and answered with nothing, since no
    /// resource is delivered yet. Everything else is ignored.
    fn handle_message(
        &self,
        registry: &ActorRegistry,
        msg_type: &str,
        msg: &serde_json::Map<String, serde_json::Value>,
    ) -> (handled: Handled<TargetAvailableMsg>)
        ensures
            handled.status == self@.status(msg_type@, field_names(*msg)),
            handled.reply.is_some() == self@.announces(msg_type@, field_names(*msg)),
            handled.reply.is_some() ==> handled.reply.unwrap()@ == self@.announcement(registry@),
            handled.reply.is_some() ==> handled.reply.unwrap()@.target.actor
                == self@.browsing_context_actor,
    {
        match WatcherRequest::parse(msg_type) {
            WatcherRequest::WatchTargets => {
                if has_field(msg, "targetType") {
                    let frame = registry.find_browsing_context(
                        self.browsing_context_actor.as_str(),
                    ).encodable();
                    Handled {
                        status: ActorMessageStatus::Processed,
                        reply: Some(
                            TargetAvailableMsg {
                                type_: "target-available-form".to_owned(),
                                target: frame,
                                from: self.name(),
                            },
                        ),
                    }
                } else {
                    Handled { status: ActorMessageStatus::Ignored, reply: None }
                }
            },
            WatcherRequest::WatchResources => Handled {
                status: ActorMessageStatus::Processed,
                reply: None,
            },
            WatcherRequest::Unhandled => Handled { status: ActorMessageStatus::Ignored, reply: None },
        }
    }
}

/// A `watchTargets` message that names a target type is processed and
/// announces the watched browsing context; one that names none is ignored
/// and announces nothing.
pub proof fn watch_targets_needs_a_target_type(watcher: WatcherActorView, fields: Set<Seq<char>>)
    ensures
        fields.contains("targetType"@) ==> watcher.announces("watchTargets"@, fields)
            && watcher.status("watchTargets"@, fields) == ActorMessageStatus::Processed,
        !fields.contains("targetType"@) ==> !watcher.announces("watchTargets"@, fields)
            && watcher.status("watchTargets"@, fields) == ActorMessageStatus::Ignored,
{
}

/// A `watchResources` message is processed, and nothing is sent for it,
/// whatever fields it has.
pub proof fn watch_resources_is_processed_in_silence(
    watcher: WatcherActorView,
    fields: Set<Seq<char>>,
)
    ensures
        watcher.status("watchResources"@, fields) == ActorMessageStatus::Processed,
        !watcher.announces("watchResources"@, fields),
{
    reveal_strlit("watchResources");
    reveal_strlit("watchTargets");
    assert("watchResources"@.len() != "watchTargets"@.len());
}

/// The announcement of a watcher carries the title and the address that the
/// watched browsing context has in the registry at that moment, and the
/// watcher's own name as its sender.
pub proof fn announcement_shows_the_context_as_it_is(
    watcher: WatcherActorView,
    registry: ActorRegistryView,
)
    ensures
        watcher.announcement(registry).from == watcher.name,
        watcher.announcement(registry).target.title == registry.browsing_context(
            watcher.browsing_context_actor,
        ).title,
        watcher.announcement(registry).target.url == registry.browsing_context(
            watcher.browsing_context_actor,
        ).url,
{
}

} // verus!
