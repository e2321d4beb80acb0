//! The browsing context that a tab shows: one page or frame, as the actors
//! see it.

use vstd::prelude::*;

verus! {

/// The actor that stands for one browsing context. Title, address and active
/// pipeline change while the page lives; whoever reads them reads the values
/// of that moment.
#[derive(Debug)]
pub struct BrowsingContextActor {
    pub name: String,
    pub title: String,
    pub url: String,
    pub browsing_context_id: u32,
    pub active_pipeline: u32,
}

/// What a `BrowsingContextActor` holds, as mathematical values.
pub struct BrowsingContextView {
    pub name: Seq<char>,
    pub title: Seq<char>,
    pub url: Seq<char>,
    pub browsing_context_id: u32,
    pub active_pipeline: u32,
}

impl View for BrowsingContextActor {
    type V = BrowsingContextView;

    open spec fn view(&self) -> BrowsingContextView {
        BrowsingContextView {
            name: self.name@,
            title: self.title@,
            url: self.url@,
            browsing_context_id: self.browsing_context_id,
            active_pipeline: self.active_pipeline,
        }
    }
}

/// The description of a browsing context that is sent to the client.
#[derive(Debug)]
pub struct BrowsingContextActorMsg {
    pub actor: String,
    pub title: String,
    pub url: String,
    pub outer_window_id: u32,
    pub browsing_context_id: u32,
}

/// What a `BrowsingContextActorMsg` holds, as mathematical values.
pub struct BrowsingContextMsgView {
    pub actor: Seq<char>,
    pub title: Seq<char>,
    pub url: Seq<char>,
    pub outer_window_id: u32,
    pub browsing_context_id: u32,
}

impl View for BrowsingContextActorMsg {
    type V = BrowsingContextMsgView;

    open spec fn view(&self) -> BrowsingContextMsgView {
        BrowsingContextMsgView {
            actor: self.actor@,
            title: self.title@,
            url: self.url@,
            outer_window_id: self.outer_window_id,
            browsing_context_id: self.browsing_context_id,
        }
    }
}

impl BrowsingContextView {
    /// The description of this browsing context: its name as the actor
    /// reference, its title and address, its own identifier, and the active
    /// pipeline as the outer window.
    pub open spec fn snapshot(self) -> BrowsingContextMsgView {
        BrowsingContextMsgView {
            actor: self.name,
            title: self.title,
            url: self.url,
            outer_window_id: self.active_pipeline,
            browsing_context_id: self.browsing_context_id,
        }
    }
}

impl BrowsingContextActor {
    /// The description of this browsing context as it is now.
    pub fn encodable(&self) -> (msg: BrowsingContextActorMsg)
        ensures
            msg@ == self@.snapshot(),
    {
        BrowsingContextActorMsg {
            actor: self.name.clone(),
            title: self.title.clone(),
            url: self.url.clone(),
            outer_window_id: self.active_pipeline,
            browsing_context_id: self.browsing_context_id,
        }
    }
}

} // verus!
