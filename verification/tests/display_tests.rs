use lumberjack::display::{
    expand_tabs, flatten_lines, looks_like_timestamp, scrollbar_metrics, split_display_lines,
    timestamp_split,
};

#[test]
fn split_display_lines_handles_trailing_newline() {
    assert_eq!(split_display_lines("a\nb"), vec!["a".to_string(), "b".to_string()]);
    assert_eq!(split_display_lines("a\n"), vec!["a".to_string()]);
    assert!(split_display_lines("").is_empty());
}

#[test]
fn flatten_lines_expands_multi_line_entries() {
    let entries = vec!["one\ntwo".to_string(), "three".to_string()];
    let flat = flatten_lines(&entries);
    assert_eq!(
        flat,
        vec!["one".to_string(), "two".to_string(), "three".to_string()]
    );
}

#[test]
fn expand_tabs_keeps_tokens_apart() {
    assert_eq!(expand_tabs("a\tb"), "a    b");
    assert_eq!(expand_tabs("no tabs"), "no tabs");
}

#[test]
fn timestamp_heuristic_accepts_rfc3339_like_lines() {
    assert!(looks_like_timestamp("2025-12-21T16:11:00+00:00 hello"));
    assert!(looks_like_timestamp("2025-12-21T16:11:00Z"));
    assert!(!looks_like_timestamp("hello world, a plain line"));
    assert!(!looks_like_timestamp("short"));
}

#[test]
fn timestamp_split_cuts_at_the_first_space() {
    let (ts, rest) = timestamp_split("2025-12-21T16:11:00Z INFO ready");
    assert_eq!(ts, "2025-12-21T16:11:00Z");
    assert_eq!(rest, " INFO ready");

    let (all, nothing) = timestamp_split("nospace");
    assert_eq!(all, "nospace");
    assert_eq!(nothing, "");
}

#[test]
fn scrollbar_thumb_is_proportional_and_clamped() {
    let (h, top) = scrollbar_metrics(50, 100, 10);
    assert_eq!(h, 1);
    assert_eq!(top, 5);

    let (h, top) = scrollbar_metrics(0, 12, 10);
    assert_eq!(h, 8);
    assert_eq!(top, 0);

    let (h, top) = scrollbar_metrics(9999, 12, 10);
    assert_eq!(h, 8);
    assert_eq!(top, 2);
}
