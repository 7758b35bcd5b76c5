use clippy_awakens::events::{event_type_from_path, is_valid_event, VALID_EVENTS};

#[test]
fn test_event_type_from_path() {
    assert_eq!(event_type_from_path("complete"), Some("complete"));
    assert_eq!(event_type_from_path("error"), Some("error"));
    assert_eq!(event_type_from_path("attention"), Some("attention"));
    assert_eq!(event_type_from_path("stop"), Some("stop"));
    assert_eq!(event_type_from_path("session-end"), Some("session-end"));
    assert_eq!(event_type_from_path("unknown"), None);
    assert_eq!(event_type_from_path(""), None);
}

#[test]
fn test_valid_event_types() {
    let valid = ["complete", "error", "attention", "stop", "session-end"];
    for event_type in &valid {
        assert!(is_valid_event(event_type), "{} should be valid", event_type);
    }
}

#[test]
fn test_invalid_event_types() {
    let invalid = ["", "unknown", "hack", "../etc/passwd", "complete/extra"];
    for event_type in &invalid {
        assert!(!is_valid_event(event_type), "{} should be invalid", event_type);
    }
}

#[test]
fn test_event_path_slashes_are_trimmed() {
    assert_eq!(event_type_from_path("/complete"), Some("complete"));
    assert_eq!(event_type_from_path("/session-end/"), Some("session-end"));
    assert_eq!(event_type_from_path("///stop//"), Some("stop"));
    assert_eq!(event_type_from_path("/"), None);
    assert_eq!(event_type_from_path("//"), None);
    assert_eq!(event_type_from_path("/complete/extra"), None);
    assert_eq!(event_type_from_path(" complete"), None);
}

#[test]
fn test_event_type_is_case_sensitive() {
    assert!(!is_valid_event("Complete"));
    assert!(!is_valid_event("ERROR"));
    assert!(!is_valid_event("complete "));
}

#[test]
fn test_valid_events_list() {
    assert_eq!(VALID_EVENTS, ["complete", "error", "attention", "stop", "session-end"]);
    for e in VALID_EVENTS.iter() {
        assert_eq!(event_type_from_path(e), Some(*e));
    }
}
