use certwatch::extract::extract;
use certwatch::extract::str_eq;
use certwatch::extract::CertificateEvent;
use certwatch::extract::ExtractError;
use certwatch::extract::ExtractOutcome;
use certwatch::matcher::evaluate;
use certwatch::matcher::MatchResult;
use certwatch::notify::delivery_verdict;
use certwatch::notify::render_match;
use certwatch::notify::render_notification;
use certwatch::notify::webhook_payload;
use certwatch::notify::DeliveryVerdict;
use certwatch::notify::SinkStatus;
use certwatch::patterns::CompileError;
use certwatch::patterns::PatternSet;
use certwatch::session::process_message;
use certwatch::session::step;
use certwatch::session::FeedEvent;
use certwatch::session::SessionAction;
use certwatch::session::SupervisorState;

fn pset(patterns: &[&str]) -> PatternSet {
    let lines: Vec<String> = patterns.iter().map(|p| p.to_string()).collect();
    PatternSet::compile(lines).expect("patterns should compile")
}

fn cert_update(domains_json: &str) -> String {
    format!(
        "{{\"message_type\":\"certificate_update\",\"data\":{{\"leaf_cert\":{{\"all_domains\":{}}}}}}}",
        domains_json
    )
}

#[test]
fn scenario_one_domain_matches_one_does_not() {
    let set = pset(&[r"evil\.com$", r".*\.bank\.example"]);
    let event = CertificateEvent {
        domains: vec!["a.evil.com".to_string(), "safe.org".to_string()],
    };
    let results = evaluate(&event, &set);
    assert_eq!(results.len(), 1);
    assert_eq!(results[0].domain, "a.evil.com");
    assert_eq!(results[0].patterns, vec![r"evil\.com$".to_string()]);
}

#[test]
fn match_all_returns_exactly_the_matching_subset() {
    let set = pset(&["foo", "o$", "^x"]);
    assert_eq!(
        set.match_all("foo"),
        vec!["foo".to_string(), "o$".to_string()]
    );
    assert_eq!(set.match_all("xoo"), vec!["o$".to_string(), "^x".to_string()]);
    assert_eq!(set.match_all("zzz"), Vec::<String>::new());
}

#[test]
fn invalid_pattern_line_fails_compilation() {
    let lines = vec!["good".to_string(), "(".to_string()];
    let err = PatternSet::compile(lines).err().expect("compilation must fail");
    assert_eq!(err, CompileError::InvalidPattern);
}

#[test]
fn empty_pattern_set_compiles_and_matches_nothing() {
    let set = pset(&[]);
    assert_eq!(set.len(), 0);
    assert_eq!(set.match_all("anything.example"), Vec::<String>::new());
}

#[test]
fn heartbeat_message_yields_skip_and_no_notifications() {
    let raw = "{\"message_type\":\"heartbeat\"}";
    assert_eq!(extract(raw), ExtractOutcome::Skip);
    let set = pset(&["evil"]);
    assert_eq!(process_message(raw, &set), Ok(Vec::new()));
    // Subsequent message processing is unaffected.
    let next = cert_update("[\"evil.com\"]");
    let lines = process_message(&next, &set).expect("a well-formed update");
    assert_eq!(lines.len(), 1);
}

#[test]
fn extraction_is_idempotent() {
    let raw = cert_update("[\"a.example\",\"b.example\"]");
    assert_eq!(extract(&raw), extract(&raw));
    let malformed = "not json at all";
    assert_eq!(extract(malformed), extract(malformed));
}

#[test]
fn other_message_types_are_skipped_whatever_their_shape() {
    assert_eq!(
        extract("{\"message_type\":\"dns_entry\",\"data\":5}"),
        ExtractOutcome::Skip
    );
    assert_eq!(extract("{\"message_type\":\"\"}"), ExtractOutcome::Skip);
    assert_eq!(
        extract("{\"message_type\":\"certificate_updates\",\"data\":{\"leaf_cert\":{\"all_domains\":[3]}}}"),
        ExtractOutcome::Skip
    );
}

#[test]
fn update_without_domain_list_is_an_error() {
    assert_eq!(
        extract("{\"message_type\":\"certificate_update\"}"),
        ExtractOutcome::Error(ExtractError::MissingDomainList)
    );
    assert_eq!(
        extract("{\"message_type\":\"certificate_update\",\"data\":{\"leaf_cert\":{}}}"),
        ExtractOutcome::Error(ExtractError::MissingDomainList)
    );
}

#[test]
fn each_structural_failure_has_its_error() {
    assert_eq!(
        extract("certainly not json"),
        ExtractOutcome::Error(ExtractError::MalformedDocument)
    );
    assert_eq!(
        extract("{}"),
        ExtractOutcome::Error(ExtractError::MissingDiscriminator)
    );
    assert_eq!(
        extract("{\"message_type\":17}"),
        ExtractOutcome::Error(ExtractError::MissingDiscriminator)
    );
    assert_eq!(
        extract(&cert_update("\"no-array\"")),
        ExtractOutcome::Error(ExtractError::DomainListNotList)
    );
    assert_eq!(
        extract(&cert_update("[\"a.example\",7]")),
        ExtractOutcome::Error(ExtractError::NonStringDomain)
    );
}

#[test]
fn extraction_keeps_domains_verbatim() {
    let raw = cert_update("[\"A.Evil.COM\",\"*.wild.example\"]");
    let expected = CertificateEvent {
        domains: vec!["A.Evil.COM".to_string(), "*.wild.example".to_string()],
    };
    assert_eq!(extract(&raw), ExtractOutcome::Event(expected));
}

#[test]
fn notification_line_quotes_and_escapes() {
    let line = render_notification(r"evil\.com$", "a.evil.com");
    assert_eq!(line, "{\"domain\":\"a.evil.com\",\"regex\":\"evil\\\\.com$\"}\n");
    let tricky = render_notification("has\"quote", "d");
    assert_eq!(tricky, "{\"domain\":\"d\",\"regex\":\"has\\\"quote\"}\n");
}

#[test]
fn one_line_per_matched_pattern() {
    let m = MatchResult {
        domain: "a.example".to_string(),
        patterns: vec!["a".to_string(), "example".to_string()],
    };
    let lines = render_match(&m);
    assert_eq!(
        lines,
        vec![
            "{\"domain\":\"a.example\",\"regex\":\"a\"}\n".to_string(),
            "{\"domain\":\"a.example\",\"regex\":\"example\"}\n".to_string(),
        ]
    );
}

#[test]
fn webhook_payload_names_domain_and_patterns() {
    let m = MatchResult {
        domain: "a.evil.com".to_string(),
        patterns: vec![r"evil\.com$".to_string(), "evil".to_string()],
    };
    assert_eq!(
        webhook_payload(&m),
        "{\"domain\":\"a.evil.com\",\"patterns\":[\"evil\\\\.com$\",\"evil\"]}"
    );
}

#[test]
fn transport_close_triggers_exactly_one_reconnect() {
    let (state, action) = step(SupervisorState::Streaming, FeedEvent::StreamEnded);
    assert_eq!(state, SupervisorState::Reconnecting);
    assert_eq!(action, SessionAction::Connect);
    let (state, action) = step(state, FeedEvent::ConnectSucceeded);
    assert_eq!(state, SupervisorState::Streaming);
    assert_eq!(action, SessionAction::Receive);
}

#[test]
fn first_connect_failure_is_fatal() {
    let (state, action) = step(
        SupervisorState::AwaitingFirstConnect,
        FeedEvent::ConnectFailed,
    );
    assert_eq!(state, SupervisorState::Failed);
    assert_eq!(action, SessionAction::Fatal);
}

#[test]
fn later_connect_failures_retry_immediately() {
    let (state, action) = step(SupervisorState::Reconnecting, FeedEvent::ConnectFailed);
    assert_eq!(state, SupervisorState::Reconnecting);
    assert_eq!(action, SessionAction::Connect);
}

#[test]
fn streaming_frames_drive_processing() {
    let (state, action) = step(
        SupervisorState::Streaming,
        FeedEvent::FrameText("{}".to_string()),
    );
    assert_eq!(state, SupervisorState::Streaming);
    assert_eq!(action, SessionAction::Process("{}".to_string()));
    let (state, action) = step(state, FeedEvent::FrameSkipped);
    assert_eq!(state, SupervisorState::Streaming);
    assert_eq!(action, SessionAction::Receive);
}

#[test]
fn webhook_failure_never_stops_the_session() {
    // The stdout line for the match exists before any delivery outcome.
    let set = pset(&["evil"]);
    let raw = cert_update("[\"evil.com\"]");
    let lines = process_message(&raw, &set).expect("a well-formed update");
    assert_eq!(lines, vec!["{\"domain\":\"evil.com\",\"regex\":\"evil\"}\n".to_string()]);
    // A failed webhook post changes nothing for the session.
    assert_eq!(
        delivery_verdict(SinkStatus::Delivered, Some(SinkStatus::Failed)),
        DeliveryVerdict::Continue
    );
    // Later messages are still processed.
    let later = process_message(&raw, &set).expect("a well-formed update");
    assert_eq!(later, lines);
}

#[test]
fn stdout_failure_is_fatal_for_the_process() {
    assert_eq!(
        delivery_verdict(SinkStatus::Failed, None),
        DeliveryVerdict::FatalOutput
    );
    assert_eq!(
        delivery_verdict(SinkStatus::Failed, Some(SinkStatus::Delivered)),
        DeliveryVerdict::FatalOutput
    );
}

#[test]
fn full_pipeline_produces_exact_lines() {
    let set = pset(&["evil", r"\.org$"]);
    let raw = cert_update("[\"evil.com\",\"ok.org\",\"plain.net\"]");
    let lines = process_message(&raw, &set).expect("a well-formed update");
    assert_eq!(
        lines,
        vec![
            "{\"domain\":\"evil.com\",\"regex\":\"evil\"}\n".to_string(),
            "{\"domain\":\"ok.org\",\"regex\":\"\\\\.org$\"}\n".to_string(),
        ]
    );
}

#[test]
fn pipeline_error_is_reported_not_fatal() {
    let set = pset(&["evil"]);
    assert_eq!(
        process_message("broken", &set),
        Err(ExtractError::MalformedDocument)
    );
    // The session goes on: the next message still yields its lines.
    let raw = cert_update("[\"evil.com\"]");
    assert!(process_message(&raw, &set).is_ok());
}

#[test]
fn str_eq_compares_by_characters() {
    assert!(str_eq("", ""));
    assert!(str_eq("abc", "abc"));
    assert!(!str_eq("abc", "abd"));
    assert!(!str_eq("abc", "ab"));
    assert!(str_eq("caf\u{e9}", "caf\u{e9}"));
    assert!(!str_eq("caf\u{e9}", "cafe"));
}
