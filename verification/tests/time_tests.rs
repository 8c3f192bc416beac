use chrono::{Datelike, TimeZone, Timelike, Utc};
use lumberjack::timespec::{parse_rfc3339_to_ms, resolve_time_spec, TimeParseError, TimeRole};

#[test]
fn parses_full_rfc3339() {
    let input = "2025-12-11T10:00:00Z";
    let ms = parse_rfc3339_to_ms(input).expect("should parse RFC3339");

    let dt = Utc
        .timestamp_millis_opt(ms)
        .single()
        .expect("valid timestamp");
    assert_eq!(dt.year(), 2025);
    assert_eq!(dt.month(), 12);
    assert_eq!(dt.day(), 11);
    assert_eq!(dt.hour(), 10);
    assert_eq!(dt.minute(), 0);
    assert_eq!(dt.second(), 0);
}

#[test]
fn parses_simple_datetime() {
    let input = "2025-12-11 10:00:00";
    let ms = parse_rfc3339_to_ms(input).expect("should parse simple form");

    let dt = Utc
        .timestamp_millis_opt(ms)
        .single()
        .expect("valid timestamp");
    assert_eq!(dt.year(), 2025);
    assert_eq!(dt.month(), 12);
    assert_eq!(dt.day(), 11);
    assert_eq!(dt.hour(), 10);
    assert_eq!(dt.minute(), 0);
    assert_eq!(dt.second(), 0);
}

#[test]
fn rejects_invalid_datetime() {
    let input = "not a datetime";
    let err = parse_rfc3339_to_ms(input).expect_err("should be invalid");
    let msg = err.message();
    assert!(msg.contains("Invalid datetime"), "error message was: {msg}");
}

#[test]
fn relative_specs_subtract_scaled_offsets() {
    let now: i64 = 1_700_000_000_000;
    assert_eq!(resolve_time_spec("-30s", now, TimeRole::Start), Ok(now - 30 * 1000));
    assert_eq!(resolve_time_spec("-5m", now, TimeRole::Start), Ok(now - 5 * 60_000));
    assert_eq!(resolve_time_spec("-2h", now, TimeRole::End), Ok(now - 2 * 3_600_000));
    assert_eq!(resolve_time_spec("-1d", now, TimeRole::Start), Ok(now - 86_400_000));
}

#[test]
fn relative_spec_without_unit_means_seconds() {
    let now: i64 = 42_000_000;
    assert_eq!(resolve_time_spec("-45", now, TimeRole::Start), Ok(now - 45 * 1000));
}

#[test]
fn empty_spec_uses_default_lookback_for_start() {
    let now: i64 = 10_000_000;
    assert_eq!(resolve_time_spec("", now, TimeRole::Start), Ok(now - 900_000));
}

#[test]
fn empty_spec_means_now_for_end() {
    let now: i64 = 10_000_000;
    assert_eq!(resolve_time_spec("", now, TimeRole::End), Ok(now));
}

#[test]
fn relative_spec_without_digits_is_rejected() {
    let now: i64 = 1_000_000;
    assert_eq!(resolve_time_spec("-m", now, TimeRole::Start), Err(TimeParseError::MissingNumber));
    assert_eq!(resolve_time_spec("-", now, TimeRole::Start), Err(TimeParseError::MissingNumber));
}

#[test]
fn relative_spec_with_unknown_unit_is_rejected() {
    let now: i64 = 1_000_000;
    assert_eq!(resolve_time_spec("-5w", now, TimeRole::Start), Err(TimeParseError::BadUnit));
    assert_eq!(resolve_time_spec("-5 m", now, TimeRole::Start), Err(TimeParseError::BadUnit));
}

#[test]
fn relative_spec_too_large_is_rejected_not_wrapped() {
    let now: i64 = 1_000_000;
    assert_eq!(
        resolve_time_spec("-99999999999999999999d", now, TimeRole::Start),
        Err(TimeParseError::TooLarge)
    );
    assert_eq!(
        resolve_time_spec("-9223372036854775807d", now, TimeRole::Start),
        Err(TimeParseError::TooLarge)
    );
}

#[test]
fn absolute_specs_resolve_independently_of_now() {
    let expected = Utc
        .with_ymd_and_hms(2025, 12, 11, 10, 0, 0)
        .single()
        .unwrap()
        .timestamp_millis();
    assert_eq!(resolve_time_spec("2025-12-11T10:00:00Z", 5, TimeRole::Start), Ok(expected));
    assert_eq!(resolve_time_spec(" 2025-12-11 10:00:00 ", 5, TimeRole::End), Ok(expected));
}

#[test]
fn offset_aware_parse_honours_the_offset() {
    let utc = parse_rfc3339_to_ms("2025-12-11T10:00:00Z").unwrap();
    let plus_two = parse_rfc3339_to_ms("2025-12-11T10:00:00+02:00").unwrap();
    assert_eq!(utc - plus_two, 2 * 3_600_000);
}
