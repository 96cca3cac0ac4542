use bridge_notify::json::call_ended_body;
use bridge_notify::json::session_started_body;
use bridge_notify::notify::call_ended_request;
use bridge_notify::notify::session_started_request;
use bridge_notify::notify::CallEndedEvent;
use bridge_notify::notify::SessionStartedEvent;
use bridge_notify::outcome::classify_outcome;
use bridge_notify::outcome::status_is_success;
use bridge_notify::outcome::LogEntry;
use bridge_notify::outcome::LogLevel;
use bridge_notify::outcome::SendOutcome;
use bridge_notify::url::call_ended_url;
use bridge_notify::url::normalize_base_url;
use bridge_notify::url::session_started_url;

#[test]
fn normalize_keeps_base_without_trailing_slash() {
    assert_eq!(normalize_base_url("https://bridge.example"), "https://bridge.example");
}

#[test]
fn normalize_strips_one_trailing_slash() {
    assert_eq!(normalize_base_url("https://bridge.example/"), "https://bridge.example");
}

#[test]
fn normalize_strips_every_trailing_slash() {
    assert_eq!(normalize_base_url("https://bridge.example///"), "https://bridge.example");
}

#[test]
fn normalize_of_empty_is_empty() {
    assert_eq!(normalize_base_url(""), "");
    assert_eq!(normalize_base_url("///"), "");
}

#[test]
fn normalize_is_idempotent_on_concrete_values() {
    for base in ["https://bridge.example/", "https://bridge.example", "a//", ""] {
        let once = normalize_base_url(base);
        let twice = normalize_base_url(&once);
        assert_eq!(twice, once);
    }
}

#[test]
fn session_started_scenario() {
    let event = SessionStartedEvent {
        call_sid: "CA123".to_owned(),
        sender: "+15551234567".to_owned(),
        transport: "twilio".to_owned(),
    };
    let request = session_started_request("https://bridge.example/", &event);
    assert_eq!(request.url, "https://bridge.example/session-started");
    assert_eq!(
        request.body,
        "{\"call_sid\":\"CA123\",\"sender\":\"+15551234567\",\"transport\":\"twilio\"}"
    );
    assert_eq!(request.content_type(), "application/json");
}

#[test]
fn call_ended_scenario() {
    let event = CallEndedEvent { call_sid: "CA123".to_owned() };
    let request = call_ended_request("https://bridge.example", &event);
    assert_eq!(request.url, "https://bridge.example/call-ended");
    assert_eq!(request.body, "{\"call_sid\":\"CA123\"}");
}

#[test]
fn url_builders_normalize_the_base() {
    assert_eq!(session_started_url("https://b.example//"), "https://b.example/session-started");
    assert_eq!(call_ended_url("https://b.example//"), "https://b.example/call-ended");
}

#[test]
fn bodies_quote_and_escape_values() {
    let body = call_ended_body("CA\"1\\2\n3");
    assert_eq!(body, "{\"call_sid\":\"CA\\\"1\\\\2\\n3\"}");
    let expected = format!("{{\"call_sid\":{}}}", serde_json::to_string("CA\"1\\2\n3").unwrap());
    assert_eq!(body, expected);
}

#[test]
fn session_body_matches_serde_json_object() {
    let body = session_started_body("CA1", "discord:42", "discord");
    let value: serde_json::Value = serde_json::from_str(&body).unwrap();
    let object = value.as_object().unwrap();
    assert_eq!(object.len(), 3);
    assert_eq!(object["call_sid"], "CA1");
    assert_eq!(object["sender"], "discord:42");
    assert_eq!(object["transport"], "discord");
}

#[test]
fn success_range_bounds() {
    assert!(!status_is_success(199));
    assert!(status_is_success(200));
    assert!(status_is_success(299));
    assert!(!status_is_success(300));
    assert!(!status_is_success(500));
}

#[test]
fn response_200_gives_debug_entry() {
    let entry = classify_outcome("CA123", SendOutcome::Response(200));
    assert_eq!(entry.level(), LogLevel::Debug);
    assert_eq!(entry.call_sid(), "CA123");
    assert!(matches!(entry, LogEntry::Success { .. }));
}

#[test]
fn response_500_gives_warning_with_status() {
    let entry = classify_outcome("CA123", SendOutcome::Response(500));
    assert_eq!(entry.level(), LogLevel::Warning);
    assert_eq!(entry.call_sid(), "CA123");
    match entry {
        LogEntry::RemoteRejection { call_sid, status } => {
            assert_eq!(call_sid, "CA123");
            assert_eq!(status, 500);
        }
        _ => panic!("expected a remote rejection entry"),
    }
}

#[test]
fn transport_failure_gives_warning_with_description() {
    let outcome = SendOutcome::TransportFailure("connection refused".to_owned());
    let entry = classify_outcome("CA123", outcome);
    assert_eq!(entry.level(), LogLevel::Warning);
    match entry {
        LogEntry::TransportFailure { call_sid, description } => {
            assert_eq!(call_sid, "CA123");
            assert_eq!(description, "connection refused");
        }
        _ => panic!("expected a transport failure entry"),
    }
}
