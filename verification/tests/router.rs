use body_router::config::FilterConfig;
use body_router::lifecycle::{
    decide, ControlSignal, HostAction, Phase, ProtocolError, RequestContext, RuleSet, StepResult,
};
use body_router::rules::{match_rules, str_contains_str, Rule};

#[test]
fn body_based_routing_test_filter_config() {
    let config = FilterConfig::new(r#"{"debug": true}"#);
    assert_eq!(config.debug, true);

    let config = FilterConfig::new("");
    assert_eq!(config.debug, false);

    let config = FilterConfig::new("invalid json");
    assert_eq!(config.debug, false);
}

#[test]
fn logging_passthrough_test_filter_config() {
    // Test with valid JSON config
    let config = FilterConfig::new(r#"{"debug": true}"#);
    assert_eq!(config.debug, true);

    // Test with empty config (uses defaults)
    let config = FilterConfig::new("");
    assert_eq!(config.debug, false);

    // Test with invalid JSON (uses defaults)
    let config = FilterConfig::new("invalid json");
    assert_eq!(config.debug, false);
}

#[test]
fn body_based_routing_test_filter_creation() {
    let _ctx = RequestContext::new();
    // Per-request state creation should succeed
}

#[test]
fn config_fallback_edge_cases() {
    assert_eq!(FilterConfig::new("   \t\r\n").debug, false);
    assert_eq!(FilterConfig::new("null").debug, false);
    assert_eq!(FilterConfig::new(r#"{"debug": 1}"#).debug, false);
    assert_eq!(FilterConfig::new(r#"{"other": true}"#).debug, false);
    assert_eq!(FilterConfig::new(r#"{"debug": false}"#).debug, false);
}

fn route_of(body: &[u8]) -> String {
    let rules = RuleSet::built_in();
    decide(&body.to_vec(), &rules)
}

#[test]
fn echo2_method_routes_to_echo2() {
    assert_eq!(route_of(br#"{"method":"invoke_echo2_service"}"#), "echo2");
}

#[test]
fn other_bodies_route_to_default() {
    assert_eq!(route_of(br#"{"method":"invoke_echo1"}"#), "echo1");
    assert_eq!(route_of(br#"{}"#), "echo1");
    assert_eq!(route_of(b"not json at all"), "echo1");
    assert_eq!(route_of(b""), "echo1");
    assert_eq!(route_of(&[0xff, 0xfe, 0x00]), "echo1");
    assert_eq!(route_of(br#"{"method": 42}"#), "echo1");
    assert_eq!(route_of(br#"{"other":"invoke_echo2_service"}"#), "echo1");
}

#[test]
fn decision_is_idempotent() {
    let rules = RuleSet::built_in();
    let body = br#"{"method":"invoke_echo2_service"}"#.to_vec();
    let first = decide(&body, &rules);
    let second = decide(&body, &rules);
    assert_eq!(first, second);
}

#[test]
fn substring_search_matches_std() {
    assert!(str_contains_str("invoke_echo2_service", "echo2"));
    assert!(!str_contains_str("invoke_echo1", "echo2"));
    assert!(str_contains_str("echo2", "echo2"));
    assert!(str_contains_str("anything", ""));
    assert!(!str_contains_str("", "echo2"));
    assert!(!str_contains_str("echo", "echo2"));
}

#[test]
fn first_match_wins_in_rule_order() {
    let rule_list = vec![
        Rule { needle: "beta".to_owned(), route_id: "first".to_owned() },
        Rule { needle: "eta".to_owned(), route_id: "second".to_owned() },
    ];
    let default_route = "fallback".to_owned();
    let signal = Some("zbetaz".to_owned());
    assert_eq!(match_rules(&signal, &rule_list, &default_route), "first");
    let signal = Some("etaonly".to_owned());
    assert_eq!(match_rules(&signal, &rule_list, &default_route), "second");
    let signal = Some("nothing here".to_owned());
    assert_eq!(match_rules(&signal, &rule_list, &default_route), "fallback");
    assert_eq!(match_rules(&None, &rule_list, &default_route), "fallback");
}

fn assert_no_actions(step: &StepResult) {
    assert!(step.actions.is_empty());
}

#[test]
fn request_without_body_completes_immediately() {
    let rules = RuleSet::built_in();
    let mut ctx = RequestContext::new();
    let step = ctx.on_request_headers(true, &rules);
    assert_eq!(step.signal, ControlSignal::Proceed);
    assert_no_actions(&step);
    assert_eq!(ctx.phase, Phase::Completed);
    assert_eq!(ctx.decision, Some("echo1".to_owned()));
}

#[test]
fn chunked_body_is_assembled_and_routed() {
    let rules = RuleSet::built_in();
    let mut ctx = RequestContext::new();

    let step = ctx.on_request_headers(false, &rules);
    assert_eq!(step.signal, ControlSignal::Pause);
    assert_no_actions(&step);
    assert_eq!(ctx.phase, Phase::BufferingBody);

    let chunk1 = br#"{"method":"invo"#.to_vec();
    let chunk2 = br#"ke_echo2_"#.to_vec();
    let chunk3 = br#"service"}"#.to_vec();

    let step = ctx.on_request_body(&chunk1, false, &rules).unwrap();
    assert_eq!(step.signal, ControlSignal::PauseAndBuffer);
    assert_no_actions(&step);

    let step = ctx.on_request_body(&chunk2, false, &rules).unwrap();
    assert_eq!(step.signal, ControlSignal::PauseAndBuffer);
    assert_no_actions(&step);

    let step = ctx.on_request_body(&chunk3, true, &rules).unwrap();
    assert_eq!(step.signal, ControlSignal::Proceed);
    assert_eq!(
        step.actions,
        vec![
            HostAction::SetRequestHeader {
                name: "x-route-to".to_owned(),
                value: "echo2".to_owned(),
            },
            HostAction::InvalidateRouteCache,
        ]
    );

    let mut assembled = chunk1.clone();
    assembled.extend_from_slice(&chunk2);
    assembled.extend_from_slice(&chunk3);
    assert_eq!(ctx.buffer, assembled);
    assert_eq!(ctx.phase, Phase::Completed);
    assert_eq!(ctx.decision, Some("echo2".to_owned()));
}

#[test]
fn single_chunk_malformed_body_routes_to_default() {
    let rules = RuleSet::built_in();
    let mut ctx = RequestContext::new();
    let step = ctx.on_request_headers(false, &rules);
    assert_eq!(step.signal, ControlSignal::Pause);

    let step = ctx.on_request_body(&b"not json at all".to_vec(), true, &rules).unwrap();
    assert_eq!(step.signal, ControlSignal::Proceed);
    assert_eq!(
        step.actions,
        vec![
            HostAction::SetRequestHeader {
                name: "x-route-to".to_owned(),
                value: "echo1".to_owned(),
            },
            HostAction::InvalidateRouteCache,
        ]
    );
    assert_eq!(ctx.decision, Some("echo1".to_owned()));
}

#[test]
fn body_before_headers_is_a_protocol_error() {
    let rules = RuleSet::built_in();
    let mut ctx = RequestContext::new();
    let outcome = ctx.on_request_body(&b"{}".to_vec(), true, &rules);
    assert_eq!(outcome.unwrap_err(), ProtocolError::BodyBeforeHeaders);
    assert_eq!(ctx.phase, Phase::AwaitingHeaders);
    assert!(ctx.buffer.is_empty());
}

#[test]
fn events_after_completion_change_nothing() {
    let rules = RuleSet::built_in();
    let mut ctx = RequestContext::new();
    ctx.on_request_headers(false, &rules);
    ctx.on_request_body(&br#"{"method":"invoke_echo2_service"}"#.to_vec(), true, &rules)
        .unwrap();
    let buffer_before = ctx.buffer.clone();

    let step = ctx.on_request_body(&b"late".to_vec(), true, &rules).unwrap();
    assert_eq!(step.signal, ControlSignal::Proceed);
    assert_no_actions(&step);
    let step = ctx.on_request_headers(false, &rules);
    assert_eq!(step.signal, ControlSignal::Proceed);
    assert_no_actions(&step);

    assert_eq!(ctx.buffer, buffer_before);
    assert_eq!(ctx.phase, Phase::Completed);
    assert_eq!(ctx.decision, Some("echo2".to_owned()));
}
