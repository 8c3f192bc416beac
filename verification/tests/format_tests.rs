use chrono::{TimeZone, Utc};
use lumberjack::format::{format_log_event, pretty_json_if_possible, RawEvent};

#[test]
fn pretty_json_formats_object() {
    let raw = r#"{ "a": 1, "b": "two" }"#;
    let pretty = pretty_json_if_possible(raw).expect("should pretty-print");
    assert!(pretty.starts_with("{"));
    assert!(pretty.contains("\n"));
    assert!(pretty.contains("\"a\""));
    assert!(pretty.contains("\"b\""));
}

#[test]
fn pretty_json_formats_array() {
    let raw = r#"[1, 2, 3]"#;
    let pretty = pretty_json_if_possible(raw).expect("should pretty-print");
    assert!(pretty.starts_with("["));
    assert!(pretty.contains("\n"));
    assert!(pretty.contains("1"));
    assert!(pretty.contains("3"));
}

#[test]
fn pretty_json_handles_leading_prefix_trim() {
    let raw = "   {\"k\": \"v\"}";
    let pretty = pretty_json_if_possible(raw).expect("should pretty-print");
    assert!(pretty.contains("\"k\""));
    assert!(pretty.contains("\"v\""));
}

#[test]
fn pretty_json_rejects_non_json() {
    let raw = "INFO something happened";
    assert!(pretty_json_if_possible(raw).is_none());
}

#[test]
fn format_log_event_plain_message() {
    let dt = Utc.with_ymd_and_hms(2025, 1, 1, 0, 0, 0).single().unwrap();
    let ev = RawEvent {
        timestamp_ms: dt.timestamp_millis(),
        message: "INFO hello world".to_string(),
    };

    let out = format_log_event(&ev);

    assert!(
        out.contains("2025-01-01T00:00:00Z") || out.contains("2025-01-01T00:00:00+00:00"),
        "expected RFC3339 timestamp with UTC offset, got: {out}"
    );

    assert!(
        out.ends_with("INFO hello world"),
        "expected message at end, got: {out}"
    );
}

#[test]
fn format_log_event_with_json_object_pretty_prints() {
    let dt = Utc.with_ymd_and_hms(2025, 1, 1, 0, 0, 0).single().unwrap();
    let ev = RawEvent {
        timestamp_ms: dt.timestamp_millis(),
        message: "INFO {\"a\":1,\"b\":\"two\"}".to_string(),
    };

    let out = format_log_event(&ev);
    assert!(out.contains("INFO "), "prefix should be kept, got: {out}");
    assert!(
        out.contains("\"a\""),
        "pretty JSON should contain key a, got: {out}"
    );
    assert!(
        out.contains("\n"),
        "pretty JSON should be multi-line, got: {out}"
    );
}

#[test]
fn format_log_event_with_malformed_json_falls_back() {
    let dt = Utc.with_ymd_and_hms(2025, 1, 1, 0, 0, 0).single().unwrap();
    let ev = RawEvent {
        timestamp_ms: dt.timestamp_millis(),
        message: "INFO {\"a\":1".to_string(),
    };

    let out = format_log_event(&ev);
    assert!(
        !out.contains("\n{\"a\""),
        "should not contain pretty-printed JSON, got: {out}"
    );
    assert!(
        out.ends_with("INFO {\"a\":1"),
        "should fall back to 'ts message', got: {out}"
    );
    assert_eq!(out.lines().count(), 1, "malformed JSON must stay on one line");
}

#[test]
fn format_log_event_preserves_newlines_in_message() {
    let ev = RawEvent {
        timestamp_ms: 0,
        message: "line1\nline2\nline3".to_string(),
    };

    let out = format_log_event(&ev);
    assert!(out.contains("line1"));
    assert!(out.contains("line2"));
    assert!(out.contains("line3"));
}

#[test]
fn format_log_event_with_json_yields_two_parts() {
    let dt = Utc.with_ymd_and_hms(2025, 1, 1, 0, 0, 0).single().unwrap();
    let ev = RawEvent {
        timestamp_ms: dt.timestamp_millis(),
        message: "INFO {\"a\":1}".to_string(),
    };

    let out = format_log_event(&ev);
    let first_line = out.lines().next().unwrap();
    assert!(first_line.ends_with("INFO "), "first line was: {first_line}");
    let rest: Vec<&str> = out.lines().skip(1).collect();
    assert!(!rest.is_empty(), "expected a pretty-printed payload");
    assert_eq!(rest.join("\n"), "{\n  \"a\": 1\n}");
}

#[test]
fn format_log_event_out_of_range_timestamp_falls_back_to_digits() {
    let ev = RawEvent {
        timestamp_ms: i64::MAX,
        message: "late".to_string(),
    };
    let out = format_log_event(&ev);
    assert_eq!(out, "9223372036854775807 late");
}

#[test]
fn format_log_event_trims_trailing_whitespace_only() {
    let ev = RawEvent {
        timestamp_ms: 0,
        message: "  padded  ".to_string(),
    };
    let out = format_log_event(&ev);
    assert!(out.ends_with("   padded"), "got: {out}");
}
