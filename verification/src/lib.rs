//! Actors of a remote-debugging server: the tab descriptor, which presents one
//! tab to a debugging client, and the watcher, through which the client
//! subscribes to the targets and resources of that tab.
//!
//! Every handler is a function from the actor, the registry and the incoming
//! message to a status and at most one reply. Writing the reply to the
//! connection is left to the caller.

pub mod actor;
pub mod browsing_context;
pub mod json;
pub mod tab;
pub mod text;
pub mod traits;
pub mod watcher;

