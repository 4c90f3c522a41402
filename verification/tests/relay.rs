use mythos_relay::bridge::bridge_events;
use mythos_relay::deep_link::{deep_link_events, scheme_str, setup_decision, Policy, Registrar};
use mythos_relay::event::{deep_link_topic_str, editor_topic_str};

#[test]
fn bridge_hello_publishes_exactly_one_event() {
    let evs = bridge_events("hello".to_string());
    assert_eq!(evs.len(), 1);
    assert_eq!(evs[0].topic, "editor-message");
    assert_eq!(evs[0].payload, "hello");
}

#[test]
fn bridge_forwards_empty_string_unchanged() {
    let evs = bridge_events(String::new());
    assert_eq!(evs.len(), 1);
    assert_eq!(evs[0].topic, "editor-message");
    assert_eq!(evs[0].payload, "");
}

#[test]
fn bridge_forwards_control_characters_unchanged() {
    let payload = "line\nbreak\ttab\u{1b}escape\0nul".to_string();
    let evs = bridge_events(payload.clone());
    assert_eq!(evs.len(), 1);
    assert_eq!(evs[0].payload, payload);
}

#[test]
fn bridge_twice_gives_two_independent_events() {
    let mut bus: Vec<(String, String)> = Vec::new();
    for ev in bridge_events("same payload".to_string()) {
        bus.push((ev.topic, ev.payload));
    }
    for ev in bridge_events("same payload".to_string()) {
        bus.push((ev.topic, ev.payload));
    }
    assert_eq!(bus.len(), 2);
    assert_eq!(bus[0], ("editor-message".to_string(), "same payload".to_string()));
    assert_eq!(bus[1], ("editor-message".to_string(), "same payload".to_string()));
}

#[test]
fn deep_link_single_oauth_url() {
    let urls = vec!["mythos://auth/callback?code=abc".to_string()];
    let evs = deep_link_events(&urls);
    assert_eq!(evs.len(), 1);
    assert_eq!(evs[0].topic, "deep-link://new-url");
    assert_eq!(evs[0].payload, "mythos://auth/callback?code=abc");
}

#[test]
fn deep_link_keeps_order_one_event_per_url() {
    let urls = vec![
        "mythos://one".to_string(),
        "mythos://two".to_string(),
        "mythos://three".to_string(),
    ];
    let evs = deep_link_events(&urls);
    assert_eq!(evs.len(), 3);
    for (ev, url) in evs.iter().zip(urls.iter()) {
        assert_eq!(ev.topic, "deep-link://new-url");
        assert_eq!(&ev.payload, url);
    }
}

#[test]
fn deep_link_empty_callback_publishes_nothing() {
    let urls: Vec<String> = Vec::new();
    let evs = deep_link_events(&urls);
    assert_eq!(evs.len(), 0);
}

#[test]
fn deep_link_duplicate_urls_are_not_deduplicated() {
    let urls = vec!["mythos://same".to_string(), "mythos://same".to_string()];
    let evs = deep_link_events(&urls);
    assert_eq!(evs.len(), 2);
    assert_eq!(evs[0].payload, "mythos://same");
    assert_eq!(evs[1].payload, "mythos://same");
}

#[test]
fn registrar_grants_the_attempt_only_once() {
    let mut reg = Registrar::new();
    assert!(reg.try_begin());
    reg.record_outcome(true);
    assert!(!reg.try_begin());
    assert!(!reg.try_begin());
}

#[test]
fn registrar_records_a_failed_attempt() {
    let mut reg = Registrar::new();
    assert!(reg.try_begin());
    reg.record_outcome(false);
    assert!(!reg.try_begin());
}

#[test]
fn setup_proceeds_silently_when_registration_succeeds() {
    assert_eq!(setup_decision(Policy::Strict, Ok(())), Ok(None));
    assert_eq!(setup_decision(Policy::Lenient, Ok(())), Ok(None));
}

#[test]
fn strict_setup_aborts_on_registration_failure() {
    let r = setup_decision(Policy::Strict, Err("scheme not supported".to_string()));
    assert_eq!(r, Err("scheme not supported".to_string()));
}

#[test]
fn lenient_setup_warns_and_proceeds_on_registration_failure() {
    let r = setup_decision(Policy::Lenient, Err("scheme not supported".to_string()));
    assert_eq!(r, Ok(Some("scheme not supported".to_string())));
}

#[test]
fn fixed_names_match_the_protocol() {
    assert_eq!(editor_topic_str(), "editor-message");
    assert_eq!(deep_link_topic_str(), "deep-link://new-url");
    assert_eq!(scheme_str(), "mythos");
}
