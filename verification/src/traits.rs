//! What a watcher advertises to the client: the kinds of target and of
//! resource that it can forward.

use vstd::prelude::*;

verus! {

/// The kinds of debuggable unit that a client can ask a watcher for.
#[derive(Clone, Copy, Debug, PartialEq, Eq, Structural)]
pub enum TargetKind {
    Frame,
    Process,
    Worker,
    ServiceWorker,
}

/// The kinds of resource that a client can ask a watcher for.
#[derive(Clone, Copy, Debug, PartialEq, Eq, Structural)]
pub enum ResourceKind {
    ConsoleMessage,
    CssChange,
    CssMessage,
    CssRegisteredProperties,
    DocumentEvent,
    Cache,
    Cookies,
    ErrorMessage,
    ExtensionStorage,
    IndexedDb,
    LocalStorage,
    SessionStorage,
    PlatformMessage,
    NetworkEvent,
    NetworkEventStacktrace,
    Reflow,
    Stylesheet,
    Source,
    Threadstate,
    ServerSentEvent,
    Websocket,
    JstracerTrace,
    JstracerState,
    LastPrivateContextExit,
}

/// One flag for each kind of resource: whether the watcher forwards it.
#[derive(Clone, Copy, Debug, PartialEq, Eq, Structural)]
pub struct WatcherResources {
    pub console_message: bool,
    pub css_change: bool,
    pub css_message: bool,
    pub css_registered_properties: bool,
    pub document_event: bool,
    pub cache: bool,
    pub cookies: bool,
    pub error_message: bool,
    pub extension_storage: bool,
    pub indexed_db: bool,
    pub local_storage: bool,
    pub session_storage: bool,
    pub platform_message: bool,
    pub network_event: bool,
    pub network_event_stacktrace: bool,
    pub reflow: bool,
    pub stylesheet: bool,
    pub source: bool,
    pub threadstate: bool,
    pub server_sent_event: bool,
    pub websocket: bool,
    pub jstracert_trace: bool,
    pub jstracer_state: bool,
    pub last_private_context_exit: bool,
}

impl WatcherResources {
    /// The flag that stands for `kind`.
    pub open spec fn flag(self, kind: ResourceKind) -> bool {
        match kind {
            ResourceKind::ConsoleMessage => self.console_message,
            ResourceKind::CssChange => self.css_change,
            ResourceKind::CssMessage => self.css_message,
            ResourceKind::CssRegisteredProperties => self.css_registered_properties,
            ResourceKind::DocumentEvent => self.document_event,
            ResourceKind::Cache => self.cache,
            ResourceKind::Cookies => self.cookies,
            ResourceKind::ErrorMessage => self.error_message,
            ResourceKind::ExtensionStorage => self.extension_storage,
            ResourceKind::IndexedDb => self.indexed_db,
            ResourceKind::LocalStorage => self.local_storage,
            ResourceKind::SessionStorage => self.session_storage,
            ResourceKind::PlatformMessage => self.platform_message,
            ResourceKind::NetworkEvent => self.network_event,
            ResourceKind::NetworkEventStacktrace => self.network_event_stacktrace,
            ResourceKind::Reflow => self.reflow,
            ResourceKind::Stylesheet => self.stylesheet,
            ResourceKind::Source => self.source,
            ResourceKind::Threadstate => self.threadstate,
            ResourceKind::ServerSentEvent => self.server_sent_event,
            ResourceKind::Websocket => self.websocket,
            ResourceKind::JstracerTrace => self.jstracert_trace,
            ResourceKind::JstracerState => self.jstracer_state,
            ResourceKind::LastPrivateContextExit => self.last_private_context_exit,
        }
    }

    /// Console messages are forwarded and nothing else is.
    pub open spec fn console_messages_only(self) -> bool {
        &&& self.console_message
        &&& !self.css_change
        &&& !self.css_message
        &&& !self.css_registered_properties
        &&& !self.document_event
        &&& !self.cache
        &&& !self.cookies
        &&& !self.error_message
        &&& !self.extension_storage
        &&& !self.indexed_db
        &&& !self.local_storage
        &&& !self.session_storage
        &&& !self.platform_message
        &&& !self.network_event
        &&& !self.network_event_stacktrace
        &&& !self.reflow
        &&& !self.stylesheet
        &&& !self.source
        &&& !self.threadstate
        &&& !self.server_sent_event
        &&& !self.websocket
        &&& !self.jstracert_trace
        &&& !self.jstracer_state
        &&& !self.last_private_context_exit
    }

    /// The resources that every watcher advertises.
    pub fn new() -> (resources: Self)
        ensures
            resources.console_messages_only(),
    {
        Self {
            console_message: true,
            css_change: false,
            css_message: false,
            css_registered_properties: false,
            document_event: false,
            cache: false,
            cookies: false,
            error_message: false,
            extension_storage: false,
            indexed_db: false,
            local_storage: false,
            session_storage: false,
            platform_message: false,
            network_event: false,
            network_event_stacktrace: false,
            reflow: false,
            stylesheet: false,
            source: false,
            threadstate: false,
            server_sent_event: false,
            websocket: false,
            jstracert_trace: false,
            jstracer_state: false,
            last_private_context_exit: false,
        }
    }

    /// Whether resources of `kind` are forwarded.
    pub fn supports(&self, kind: ResourceKind) -> (supported: bool)
        ensures
            supported == self.flag(kind),
    {
        match kind {
            ResourceKind::ConsoleMessage => self.console_message,
            ResourceKind::CssChange => self.css_change,
            ResourceKind::CssMessage => self.css_message,
            ResourceKind::CssRegisteredProperties => self.css_registered_properties,
            ResourceKind::DocumentEvent => self.document_event,
            ResourceKind::Cache => self.cache,
            ResourceKind::Cookies => self.cookies,
            ResourceKind::ErrorMessage => self.error_message,
            ResourceKind::ExtensionStorage => self.extension_storage,
            ResourceKind::IndexedDb => self.indexed_db,
            ResourceKind::LocalStorage => self.local_storage,
            ResourceKind::SessionStorage => self.session_storage,
            ResourceKind::PlatformMessage => self.platform_message,
            ResourceKind::NetworkEvent => self.network_event,
            ResourceKind::NetworkEventStacktrace => self.network_event_stacktrace,
            ResourceKind::Reflow => self.reflow,
            ResourceKind::Stylesheet => self.stylesheet,
            ResourceKind::Source => self.source,
            ResourceKind::Threadstate => self.threadstate,
            ResourceKind::ServerSentEvent => self.server_sent_event,
            ResourceKind::Websocket => self.websocket,
            ResourceKind::JstracerTrace => self.jstracert_trace,
            ResourceKind::JstracerState => self.jstracer_state,
            ResourceKind::LastPrivateContextExit => self.last_private_context_exit,
        }
    }
}

/// The capabilities of a watcher: one flag for each kind of target, and the
/// resource flags.
#[derive(Clone, Copy, Debug, PartialEq, Eq, Structural)]
pub struct WatcherTraits {
    pub frame: bool,
    pub process: bool,
    pub worker: bool,
    pub service_worker: bool,
    pub resources: WatcherResources,
}

impl WatcherTraits {
    /// The flag that stands for `kind`.
    pub open spec fn flag(self, kind: TargetKind) -> bool {
        match kind {
            TargetKind::Frame => self.frame,
            TargetKind::Process => self.process,
            TargetKind::Worker => self.worker,
            TargetKind::ServiceWorker => self.service_worker,
        }
    }

    /// Frames are the only targets, and console messages the only resources.
    pub open spec fn frames_and_console_messages_only(self) -> bool {
        &&& self.frame
        &&& !self.process
        &&& !self.worker
        &&& !self.service_worker
        &&& self.resources.console_messages_only()
    }

    /// The capabilities that every watcher advertises.
    pub fn new() -> (traits: Self)
        ensures
            traits.frames_and_console_messages_only(),
    {
        Self {
            frame: true,
            process: false,
            worker: false,
            service_worker: false,
            resources: WatcherResources::new(),
        }
    }

    /// Whether targets of `kind` can be watched.
    pub fn supports_target(&self, kind: TargetKind) -> (supported: bool)
        ensures
            supported == self.flag(kind),
    {
        match kind {
            TargetKind::Frame => self.frame,
            TargetKind::Process => self.process,
            TargetKind::Worker => self.worker,
            TargetKind::ServiceWorker => self.service_worker,
        }
    }
}

/// Of all kinds of target a watcher advertises exactly the frame, and of all
/// kinds of resource exactly the console message.
pub proof fn exactly_one_kind_of_each(traits: WatcherTraits)
    requires
        traits.frames_and_console_messages_only(),
    ensures
        forall|kind: TargetKind| #[trigger] traits.flag(kind) <==> kind == TargetKind::Frame,
        forall|kind: ResourceKind| #[trigger]
            traits.resources.flag(kind) <==> kind == ResourceKind::ConsoleMessage,
{
}

/// Two capability sets that both advertise frames and console messages only
/// are the same value, flag for flag.
pub proof fn capabilities_are_one_constant(a: WatcherTraits, b: WatcherTraits)
    requires
        a.frames_and_console_messages_only(),
        b.frames_and_console_messages_only(),
    ensures
        a == b,
{
}

} // verus!
