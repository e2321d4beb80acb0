use devtools::actor::{Actor, ActorMessageStatus, ActorRegistry, RegisteredActor};
use devtools::browsing_context::BrowsingContextActor;
use devtools::json::has_field;
use devtools::tab::{TabDescriptorActor, TabDescriptorReply, TabDescriptorRequest};
use devtools::text::numbered;
use devtools::traits::{ResourceKind, TargetKind, WatcherResources, WatcherTraits};
use devtools::watcher::{WatcherActor, WatcherRequest};
use serde_json::Value;

const ALL_RESOURCES: [ResourceKind; 24] = [
    ResourceKind::ConsoleMessage,
    ResourceKind::CssChange,
    ResourceKind::CssMessage,
    ResourceKind::CssRegisteredProperties,
    ResourceKind::DocumentEvent,
    ResourceKind::Cache,
    ResourceKind::Cookies,
    ResourceKind::ErrorMessage,
    ResourceKind::ExtensionStorage,
    ResourceKind::IndexedDb,
    ResourceKind::LocalStorage,
    ResourceKind::SessionStorage,
    ResourceKind::PlatformMessage,
    ResourceKind::NetworkEvent,
    ResourceKind::NetworkEventStacktrace,
    ResourceKind::Reflow,
    ResourceKind::Stylesheet,
    ResourceKind::Source,
    ResourceKind::Threadstate,
    ResourceKind::ServerSentEvent,
    ResourceKind::Websocket,
    ResourceKind::JstracerTrace,
    ResourceKind::JstracerState,
    ResourceKind::LastPrivateContextExit,
];

const ALL_TARGETS: [TargetKind; 4] =
    [TargetKind::Frame, TargetKind::Process, TargetKind::Worker, TargetKind::ServiceWorker];

fn context(name: &str, title: &str, url: &str) -> RegisteredActor {
    RegisteredActor::BrowsingContext(BrowsingContextActor {
        name: name.to_string(),
        title: title.to_string(),
        url: url.to_string(),
        browsing_context_id: 3,
        active_pipeline: 11,
    })
}

fn session(title: &str, url: &str) -> (ActorRegistry, TabDescriptorActor) {
    let mut registry = ActorRegistry::new();
    registry.register(context("target0", title, url));
    let tab = TabDescriptorActor::new(&mut registry, "target0".to_string());
    (registry, tab)
}

fn body(fields: &[(&str, &str)]) -> serde_json::Map<String, Value> {
    let mut map = serde_json::Map::new();
    for (key, value) in fields {
        map.insert(key.to_string(), Value::String(value.to_string()));
    }
    map
}

fn assert_fixed_capabilities(traits: &WatcherTraits) {
    for kind in ALL_TARGETS {
        assert_eq!(traits.supports_target(kind), kind == TargetKind::Frame);
    }
    for kind in ALL_RESOURCES {
        assert_eq!(traits.resources.supports(kind), kind == ResourceKind::ConsoleMessage);
    }
}

#[test]
fn get_target_describes_the_browsing_context() {
    let (registry, tab) = session("Example", "https://example.test");
    let handled = tab.handle_message(&registry, "getTarget", &body(&[("type", "getTarget")]));
    assert_eq!(handled.status, ActorMessageStatus::Processed);
    match handled.reply {
        Some(TabDescriptorReply::Target(reply)) => {
            assert_eq!(reply.from, tab.name());
            assert_eq!(reply.from, "tabDescription0");
            assert_eq!(reply.frame.actor, "target0");
            assert_eq!(reply.frame.title, "Example");
            assert_eq!(reply.frame.url, "https://example.test");
            assert_eq!(reply.frame.browsing_context_id, 3);
            assert_eq!(reply.frame.outer_window_id, 11);
        },
        other => panic!("unexpected reply: {:?}", other),
    }
}

#[test]
fn get_target_reads_the_title_at_call_time() {
    let (mut registry, tab) = session("Before", "https://example.test/a");
    let first = tab.handle_message(&registry, "getTarget", &serde_json::Map::new());
    registry.register(context("target0", "After", "https://example.test/b"));
    let second = tab.handle_message(&registry, "getTarget", &serde_json::Map::new());
    match (first.reply, second.reply) {
        (Some(TabDescriptorReply::Target(first)), Some(TabDescriptorReply::Target(second))) => {
            assert_eq!(first.frame.title, "Before");
            assert_eq!(first.frame.url, "https://example.test/a");
            assert_eq!(second.frame.title, "After");
            assert_eq!(second.frame.url, "https://example.test/b");
            assert_eq!(first.from, second.from);
        },
        other => panic!("unexpected replies: {:?}", other),
    }
}

#[test]
fn get_favicon_is_empty() {
    let (registry, tab) = session("Example", "https://example.test");
    for fields in [body(&[]), body(&[("type", "getFavicon")]), body(&[("favicon", "x.png")])] {
        let handled = tab.handle_message(&registry, "getFavicon", &fields);
        assert_eq!(handled.status, ActorMessageStatus::Processed);
        match handled.reply {
            Some(TabDescriptorReply::Favicon(reply)) => {
                assert_eq!(reply.from, "tabDescription0");
                assert_eq!(reply.favicon, "");
            },
            other => panic!("unexpected reply: {:?}", other),
        }
    }
}

#[test]
fn get_favicon_needs_no_browsing_context() {
    let mut registry = ActorRegistry::new();
    let tab = TabDescriptorActor::new(&mut registry, "gone".to_string());
    let handled = tab.handle_message(&registry, "getFavicon", &serde_json::Map::new());
    assert_eq!(handled.status, ActorMessageStatus::Processed);
    assert!(matches!(handled.reply, Some(TabDescriptorReply::Favicon(_))));
}

#[test]
fn get_watcher_names_the_same_watcher_every_time() {
    let (mut registry, tab) = session("Example", "https://example.test");
    let first = tab.handle_message(&registry, "getWatcher", &serde_json::Map::new());
    registry.register(context("target0", "Other", "https://example.test/other"));
    registry.register(context("target9", "Another", "https://example.test/another"));
    let second = tab.handle_message(&registry, "getWatcher", &serde_json::Map::new());
    assert_eq!(first.status, ActorMessageStatus::Processed);
    assert_eq!(second.status, ActorMessageStatus::Processed);
    match (first.reply, second.reply) {
        (Some(TabDescriptorReply::Watcher(first)), Some(TabDescriptorReply::Watcher(second))) => {
            assert_eq!(first.actor, "watcher1");
            assert_eq!(second.actor, "watcher1");
            assert_eq!(first.actor, tab.watcher_actor_name());
            assert_eq!(first.from, "tabDescription0");
            assert_eq!(second.from, "tabDescription0");
            assert_eq!(first.traits, second.traits);
            assert_fixed_capabilities(&first.traits);
        },
        other => panic!("unexpected replies: {:?}", other),
    }
}

#[test]
fn unknown_message_is_ignored_by_the_descriptor() {
    let (registry, tab) = session("Example", "https://example.test");
    for msg_type in ["bogus", "", "gettarget", "getTarget ", "watchTargets", "getWatchers"] {
        let handled = tab.handle_message(&registry, msg_type, &body(&[("type", msg_type)]));
        assert_eq!(handled.status, ActorMessageStatus::Ignored);
        assert!(handled.reply.is_none());
    }
}

#[test]
fn descriptor_requests_are_told_apart() {
    assert_eq!(TabDescriptorRequest::parse("getTarget"), TabDescriptorRequest::GetTarget);
    assert_eq!(TabDescriptorRequest::parse("getFavicon"), TabDescriptorRequest::GetFavicon);
    assert_eq!(TabDescriptorRequest::parse("getWatcher"), TabDescriptorRequest::GetWatcher);
    assert_eq!(TabDescriptorRequest::parse("getwatcher"), TabDescriptorRequest::Unhandled);
    assert_eq!(TabDescriptorRequest::parse("bogus"), TabDescriptorRequest::Unhandled);
}

#[test]
fn watcher_requests_are_told_apart() {
    assert_eq!(WatcherRequest::parse("watchTargets"), WatcherRequest::WatchTargets);
    assert_eq!(WatcherRequest::parse("watchResources"), WatcherRequest::WatchResources);
    assert_eq!(WatcherRequest::parse("watchtargets"), WatcherRequest::Unhandled);
    assert_eq!(WatcherRequest::parse("getTarget"), WatcherRequest::Unhandled);
    assert_eq!(WatcherRequest::parse(""), WatcherRequest::Unhandled);
}

#[test]
fn new_descriptor_registers_its_watcher_and_joins_the_tabs() {
    let mut registry = ActorRegistry::new();
    let first = TabDescriptorActor::new(&mut registry, "target0".to_string());
    let second = TabDescriptorActor::new(&mut registry, "target1".to_string());
    assert_eq!(first.name(), "tabDescription0");
    assert_eq!(first.watcher_actor_name(), "watcher1");
    assert_eq!(first.browsing_context_actor(), "target0");
    assert_eq!(second.name(), "tabDescription2");
    assert_eq!(second.watcher_actor_name(), "watcher3");
    assert_eq!(second.browsing_context_actor(), "target1");
    assert_eq!(registry.tabs(), &vec!["tabDescription0".to_string(), "tabDescription2".to_string()]);
    assert_eq!(registry.names_left(), u32::MAX - 4);
    match registry.find("watcher1") {
        Some(RegisteredActor::Watcher(watcher)) => {
            assert_eq!(watcher.name(), "watcher1");
            assert_eq!(watcher.browsing_context_actor(), "target0");
        },
        other => panic!("unexpected actor: {:?}", other),
    }
    match registry.find("watcher3") {
        Some(RegisteredActor::Watcher(watcher)) => {
            assert_eq!(watcher.browsing_context_actor(), "target1");
        },
        other => panic!("unexpected actor: {:?}", other),
    }
    assert!(registry.find("tabDescription0").is_none());
}

#[test]
fn descriptor_snapshot_takes_both_window_ids_from_the_pipeline() {
    let (registry, tab) = session("Example", "https://example.test");
    let msg = tab.encodable(&registry, true);
    assert_eq!(msg.actor, "tabDescription0");
    assert_eq!(msg.title, "Example");
    assert_eq!(msg.url, "https://example.test");
    assert_eq!(msg.outerWindowID, 11);
    assert_eq!(msg.browserId, 11);
    assert_eq!(msg.browsingContextId, 3);
    assert!(msg.selected);
    assert!(!msg.isZombieTab);
    assert!(msg.traits.watcher);
    assert!(!msg.traits.supportsReloadDescriptor);
    assert!(!tab.encodable(&registry, false).selected);
}

#[test]
fn descriptor_snapshot_reads_the_title_at_call_time() {
    let (mut registry, tab) = session("Before", "https://example.test/a");
    assert_eq!(tab.encodable(&registry, false).title, "Before");
    registry.register(context("target0", "After", "https://example.test/b"));
    let msg = tab.encodable(&registry, false);
    assert_eq!(msg.title, "After");
    assert_eq!(msg.url, "https://example.test/b");
}

#[test]
fn watcher_capabilities_are_fixed() {
    assert_fixed_capabilities(&WatcherTraits::new());
    let resources = WatcherResources::new();
    assert!(resources.console_message);
    assert!(!resources.network_event);
    let mut registry = ActorRegistry::new();
    let one = WatcherActor::new(&mut registry, "target0".to_string());
    let other = WatcherActor::new(&mut registry, "somewhere-else".to_string());
    assert_fixed_capabilities(&one.encodable().traits);
    assert_fixed_capabilities(&other.encodable().traits);
    assert_eq!(one.encodable().traits, WatcherTraits::new());
    assert_eq!(one.encodable().traits, other.encodable().traits);
    assert_eq!(one.encodable().actor, "watcher0");
    assert_eq!(other.encodable().actor, "watcher1");
}

#[test]
fn new_watcher_registers_nothing() {
    let mut registry = ActorRegistry::new();
    let watcher = WatcherActor::new(&mut registry, "target0".to_string());
    assert_eq!(watcher.name(), "watcher0");
    assert_eq!(watcher.browsing_context_actor(), "target0");
    assert!(registry.find("watcher0").is_none());
    assert!(registry.tabs().is_empty());
    assert_eq!(registry.names_left(), u32::MAX - 1);
}

#[test]
fn watch_targets_announces_the_browsing_context() {
    let mut registry = ActorRegistry::new();
    registry.register(context("target0", "Example", "https://example.test"));
    let watcher = WatcherActor::new(&mut registry, "target0".to_string());
    let fields = body(&[("type", "watchTargets"), ("targetType", "frame")]);
    let handled = watcher.handle_message(&registry, "watchTargets", &fields);
    assert_eq!(handled.status, ActorMessageStatus::Processed);
    let reply = handled.reply.expect("a notice");
    assert_eq!(reply.type_, "target-available-form");
    assert_eq!(reply.from, "watcher0");
    assert_eq!(reply.target.actor, "target0");
    assert_eq!(reply.target.title, "Example");
    assert_eq!(reply.target.url, "https://example.test");
    assert_eq!(reply.target.browsing_context_id, 3);
    assert_eq!(reply.target.outer_window_id, 11);
}

#[test]
fn watch_targets_without_target_type_is_ignored() {
    let mut registry = ActorRegistry::new();
    registry.register(context("target0", "Example", "https://example.test"));
    let watcher = WatcherActor::new(&mut registry, "target0".to_string());
    for fields in [body(&[]), body(&[("type", "watchTargets")]), body(&[("targettype", "frame")])] {
        let handled = watcher.handle_message(&registry, "watchTargets", &fields);
        assert_eq!(handled.status, ActorMessageStatus::Ignored);
        assert!(handled.reply.is_none());
    }
}

#[test]
fn watch_targets_without_target_type_needs_no_browsing_context() {
    let mut registry = ActorRegistry::new();
    let watcher = WatcherActor::new(&mut registry, "gone".to_string());
    let handled = watcher.handle_message(&registry, "watchTargets", &serde_json::Map::new());
    assert_eq!(handled.status, ActorMessageStatus::Ignored);
    assert!(handled.reply.is_none());
}

#[test]
fn watch_resources_is_processed_without_a_reply() {
    let mut registry = ActorRegistry::new();
    let watcher = WatcherActor::new(&mut registry, "target0".to_string());
    let with_fields = body(&[("resourceTypes", "console-message"), ("targetType", "frame")]);
    for fields in [body(&[]), with_fields] {
        let handled = watcher.handle_message(&registry, "watchResources", &fields);
        assert_eq!(handled.status, ActorMessageStatus::Processed);
        assert!(handled.reply.is_none());
    }
}

#[test]
fn unknown_message_is_ignored_by_the_watcher() {
    let mut registry = ActorRegistry::new();
    registry.register(context("target0", "Example", "https://example.test"));
    let watcher = WatcherActor::new(&mut registry, "target0".to_string());
    for msg_type in ["bogus", "getTarget", "watchtargets", "watchResource", ""] {
        let handled = watcher.handle_message(&registry, msg_type, &body(&[("targetType", "frame")]));
        assert_eq!(handled.status, ActorMessageStatus::Ignored);
        assert!(handled.reply.is_none());
    }
}

#[test]
fn registering_a_name_again_replaces_the_actor() {
    let mut registry = ActorRegistry::new();
    assert!(registry.find("target0").is_none());
    registry.register(context("target0", "One", "https://one.test"));
    registry.register(context("target1", "Two", "https://two.test"));
    registry.register(context("target0", "Three", "https://three.test"));
    assert_eq!(registry.find_browsing_context("target0").title, "Three");
    assert_eq!(registry.find_browsing_context("target0").name, "target0");
    assert_eq!(registry.find_browsing_context("target1").title, "Two");
    assert!(registry.find("target2").is_none());
    assert!(registry.find("").is_none());
}

#[test]
fn browsing_context_snapshot_copies_the_actor() {
    let actor = BrowsingContextActor {
        name: "target7".to_string(),
        title: "Example".to_string(),
        url: "https://example.test".to_string(),
        browsing_context_id: 5,
        active_pipeline: 8,
    };
    let msg = actor.encodable();
    assert_eq!(msg.actor, "target7");
    assert_eq!(msg.title, "Example");
    assert_eq!(msg.url, "https://example.test");
    assert_eq!(msg.browsing_context_id, 5);
    assert_eq!(msg.outer_window_id, 8);
}

#[test]
fn names_are_a_prefix_and_a_decimal_number() {
    assert_eq!(numbered("watcher", 0), "watcher0");
    assert_eq!(numbered("watcher", 9), "watcher9");
    assert_eq!(numbered("watcher", 10), "watcher10");
    assert_eq!(numbered("tabDescription", 1203), "tabDescription1203");
    assert_eq!(numbered("", 4294967295), "4294967295");
    let mut registry = ActorRegistry::new();
    assert_eq!(registry.names_left(), u32::MAX);
    assert_eq!(registry.new_name("root"), "root0");
    assert_eq!(registry.new_name("root"), "root1");
    assert_eq!(registry.new_name("console"), "console2");
    assert_eq!(registry.names_left(), u32::MAX - 3);
}

#[test]
fn removing_an_actor_leaves_the_others() {
    let mut registry = ActorRegistry::new();
    registry.register(context("target0", "One", "https://one.test"));
    registry.register(context("target1", "Two", "https://two.test"));
    registry.register(context("target2", "Three", "https://three.test"));
    match registry.remove("target1") {
        Some(RegisteredActor::BrowsingContext(actor)) => {
            assert_eq!(actor.name, "target1");
            assert_eq!(actor.title, "Two");
        },
        other => panic!("unexpected actor: {:?}", other),
    }
    assert!(registry.remove("target1").is_none());
    assert!(registry.remove("target9").is_none());
    assert!(registry.find("target1").is_none());
    assert_eq!(registry.find_browsing_context("target0").title, "One");
    assert_eq!(registry.find_browsing_context("target2").title, "Three");
}

#[test]
fn removing_a_tab_keeps_the_order_of_the_others() {
    let mut registry = ActorRegistry::new();
    for name in ["a", "b", "a", "c"] {
        registry.add_tab(name.to_string());
    }
    registry.remove_tab("a");
    assert_eq!(registry.tabs(), &vec!["b".to_string(), "c".to_string()]);
    registry.remove_tab("missing");
    assert_eq!(registry.tabs(), &vec!["b".to_string(), "c".to_string()]);
    registry.remove_tab("c");
    registry.remove_tab("b");
    assert!(registry.tabs().is_empty());
}

#[test]
fn destroying_a_descriptor_removes_it_and_its_watcher() {
    let mut registry = ActorRegistry::new();
    registry.register(context("target0", "Example", "https://example.test"));
    let first = TabDescriptorActor::new(&mut registry, "target0".to_string());
    let second = TabDescriptorActor::new(&mut registry, "target0".to_string());
    let copy = TabDescriptorActor::new(&mut registry, "target0".to_string());
    let copy_name = copy.name();
    registry.register(RegisteredActor::TabDescriptor(copy));
    assert!(registry.find(&copy_name).is_some());
    assert_eq!(registry.tabs().len(), 3);

    let second_name = second.name();
    first.destroy(&mut registry);
    assert!(registry.find("watcher1").is_none());
    assert!(registry.find("watcher3").is_some());
    assert!(registry.find("target0").is_some());
    assert_eq!(registry.tabs(), &vec![second_name, copy_name.clone()]);
    assert_eq!(registry.names_left(), u32::MAX - 6);

    assert!(registry.remove(&copy_name).is_some());
    assert!(registry.find(&copy_name).is_none());
}

#[test]
fn destroying_a_registered_descriptor_unregisters_it() {
    let mut registry = ActorRegistry::new();
    let tab = TabDescriptorActor::new(&mut registry, "target0".to_string());
    let other = TabDescriptorActor::new(&mut registry, "target1".to_string());
    registry.register(RegisteredActor::TabDescriptor(tab));
    match registry.find("tabDescription0") {
        Some(RegisteredActor::TabDescriptor(found)) => {
            assert_eq!(found.watcher_actor_name(), "watcher1");
        },
        other => panic!("unexpected actor: {:?}", other),
    }
    match registry.remove("tabDescription0") {
        Some(RegisteredActor::TabDescriptor(tab)) => tab.destroy(&mut registry),
        other => panic!("unexpected actor: {:?}", other),
    }
    assert!(registry.find("tabDescription0").is_none());
    assert!(registry.find("watcher1").is_none());
    assert!(registry.find("watcher3").is_some());
    assert_eq!(registry.tabs(), &vec![other.name()]);
}

#[test]
fn a_name_in_use_is_not_handed_out() {
    let mut registry = ActorRegistry::new();
    assert!(TabDescriptorActor::can_create(&registry));
    assert!(WatcherActor::can_create(&registry));
    assert!(registry.can_name("watcher", 0));
    assert!(!registry.is_in_use("watcher0"));

    registry.register(context("watcher0", "Example", "https://example.test"));
    assert!(registry.is_in_use("watcher0"));
    assert!(!registry.can_name("watcher", 0));
    assert!(registry.can_name("watcher", 1));
    assert!(registry.can_name("target", 0));
    assert!(!WatcherActor::can_create(&registry));
    assert!(TabDescriptorActor::can_create(&registry));

    registry.register(context("watcher1", "Example", "https://example.test"));
    assert!(!TabDescriptorActor::can_create(&registry));
    assert!(registry.remove("watcher1").is_some());
    assert!(TabDescriptorActor::can_create(&registry));

    registry.add_tab("tabDescription0".to_string());
    assert!(registry.is_in_use("tabDescription0"));
    assert!(!registry.is_in_use("tabDescription"));
    assert!(!TabDescriptorActor::can_create(&registry));
    registry.remove_tab("tabDescription0");
    assert!(TabDescriptorActor::can_create(&registry));
}

#[test]
fn names_beyond_the_counter_are_not_handed_out() {
    let registry = ActorRegistry::new();
    assert!(registry.can_name("watcher", u32::MAX - 1));
    assert!(!registry.can_name("watcher", u32::MAX));
}

#[test]
fn descriptors_made_in_a_row_share_no_name() {
    let mut registry = ActorRegistry::new();
    registry.register(context("target0", "Example", "https://example.test"));
    let mut names = Vec::new();
    for _ in 0..12 {
        assert!(TabDescriptorActor::can_create(&registry));
        let tab = TabDescriptorActor::new(&mut registry, "target0".to_string());
        assert!(registry.is_in_use(&tab.name()));
        assert!(registry.is_in_use(tab.watcher_actor_name()));
        names.push(tab.name());
        names.push(tab.watcher_actor_name().to_string());
    }
    assert_eq!(names[20], "tabDescription20");
    assert_eq!(names[21], "watcher21");
    for i in 0..names.len() {
        for j in 0..i {
            assert_ne!(names[i], names[j]);
        }
    }
    assert_eq!(registry.tabs().len(), 12);
    for i in 0..12 {
        for j in 0..i {
            assert_ne!(registry.tabs()[i], registry.tabs()[j]);
        }
    }
    assert_eq!(registry.find_browsing_context("target0").title, "Example");
    assert_eq!(registry.find_browsing_context("target0").url, "https://example.test");
}

#[test]
fn a_body_is_asked_for_its_fields() {
    let fields = body(&[("type", "watchTargets"), ("targetType", "frame")]);
    assert!(has_field(&fields, "type"));
    assert!(has_field(&fields, "targetType"));
    assert!(!has_field(&fields, "targettype"));
    assert!(!has_field(&fields, "frame"));
    assert!(!has_field(&fields, ""));
    assert!(!has_field(&body(&[]), "targetType"));
}

#[test]
fn a_handler_can_be_asked_whether_it_can_resolve() {
    let mut registry = ActorRegistry::new();
    let tab = TabDescriptorActor::new(&mut registry, "target9".to_string());
    let watcher = WatcherActor::new(&mut registry, "target9".to_string());
    let with_type = body(&[("targetType", "frame")]);
    let without = body(&[("type", "watchTargets")]);

    assert!(!tab.can_describe(&registry));
    assert!(!tab.can_handle(&registry, "getTarget", &without));
    assert!(tab.can_handle(&registry, "getFavicon", &without));
    assert!(tab.can_handle(&registry, "getWatcher", &without));
    assert!(tab.can_handle(&registry, "bogus", &without));
    assert!(!watcher.can_handle(&registry, "watchTargets", &with_type));
    assert!(watcher.can_handle(&registry, "watchTargets", &without));
    assert!(watcher.can_handle(&registry, "watchResources", &with_type));
    assert!(watcher.can_handle(&registry, "bogus", &with_type));

    registry.register(context("target9", "Example", "https://example.test"));
    assert!(tab.can_describe(&registry));
    assert!(tab.can_handle(&registry, "getTarget", &without));
    assert!(watcher.can_handle(&registry, "watchTargets", &with_type));

    let other = WatcherActor::new(&mut registry, tab.watcher_actor_name().to_string());
    assert!(!other.can_handle(&registry, "watchTargets", &with_type));
}

#[test]
fn texts_are_compared_character_by_character() {
    assert_eq!(TabDescriptorRequest::parse("getTarge"), TabDescriptorRequest::Unhandled);
    assert_eq!(TabDescriptorRequest::parse("getTargets"), TabDescriptorRequest::Unhandled);
    assert_eq!(TabDescriptorRequest::parse("getTargeT"), TabDescriptorRequest::Unhandled);
    assert_eq!(TabDescriptorRequest::parse("g\u{e9}tTarget"), TabDescriptorRequest::Unhandled);
    let mut registry = ActorRegistry::new();
    registry.register(context("caf\u{e9}", "One", "https://one.test"));
    registry.register(context("cafe", "Two", "https://two.test"));
    registry.register(context("\u{65e5}\u{672c}", "Three", "https://three.test"));
    assert_eq!(registry.find_browsing_context("caf\u{e9}").title, "One");
    assert_eq!(registry.find_browsing_context("cafe").title, "Two");
    assert_eq!(registry.find_browsing_context("\u{65e5}\u{672c}").title, "Three");
    assert!(registry.find("caf").is_none());
    assert!(registry.find("\u{65e5}").is_none());
}
