use chrono::{TimeZone, Utc};
use lumberjack::fetch::{FetchState, Page};
use lumberjack::format::RawEvent;
use lumberjack::session::{FetchOutcome, ResultLine, Session, SessionPhase};
use lumberjack::tail::TailState;
use lumberjack::timespec::{resolve_time_spec, TimeRole};

fn event(ts: i64, msg: &str) -> RawEvent {
    RawEvent {
        timestamp_ms: ts,
        message: msg.to_string(),
    }
}

fn page(events: Vec<RawEvent>, next: Option<&str>) -> Page {
    Page {
        events,
        next_cursor: next.map(|s| s.to_string()),
    }
}

#[test]
fn pagination_stops_when_the_cursor_is_absent() {
    let mut st = FetchState::new();
    st.absorb_page(page(vec![event(1, "a")], None));
    assert!(st.done);
    assert_eq!(st.lines.len(), 1);
}

#[test]
fn pagination_stops_when_two_consecutive_cursors_are_identical() {
    let mut st = FetchState::new();
    st.absorb_page(page(vec![event(1, "a")], Some("c1")));
    assert!(!st.done, "a fresh cursor continues pagination");
    st.absorb_page(page(vec![event(2, "b")], Some("c1")));
    assert!(st.done, "a repeated cursor must stop pagination");
    assert_eq!(st.lines.len(), 2);
}

#[test]
fn pagination_tracks_the_maximum_timestamp_across_pages() {
    let mut st = FetchState::new();
    st.absorb_page(page(vec![event(7, "a"), event(3, "b")], Some("c1")));
    st.absorb_page(page(vec![event(5, "c")], None));
    assert_eq!(st.max_ts, Some(7));
}

#[test]
fn pagination_with_no_events_reports_no_timestamp() {
    let mut st = FetchState::new();
    st.absorb_page(page(Vec::new(), None));
    assert!(st.done);
    assert_eq!(st.max_ts, None);
    assert!(st.lines.is_empty());
}

#[test]
fn tail_last_seen_only_ever_increases() {
    let mut tail = TailState::new();
    let polls = [Some(10), None, Some(7), Some(12), None, Some(3)];
    let mut previous: Option<i64> = None;
    for p in polls {
        tail.observe(p);
        if let Some(prev) = previous {
            assert!(tail.last_seen_ts.unwrap() >= prev, "mark decreased");
        }
        previous = tail.last_seen_ts;
    }
    assert_eq!(tail.last_seen_ts, Some(12));
}

#[test]
fn tail_window_start_is_one_past_the_mark() {
    let dt = Utc.with_ymd_and_hms(2025, 1, 1, 0, 0, 0).single().unwrap();
    let ms = dt.timestamp_millis();
    let mut tail = TailState::new();
    tail.observe(Some(ms));
    let start = tail.next_window_start("-5m");
    let expected = Utc.timestamp_millis_opt(ms + 1).single().unwrap().to_rfc3339();
    assert_eq!(start, expected);
}

#[test]
fn tail_window_start_falls_back_to_the_original() {
    let tail = TailState::new();
    assert_eq!(tail.next_window_start("-5m"), "-5m");
}

#[test]
fn session_failure_line_is_prefixed() {
    let mut session = Session::new(true);
    let out = session.on_initial_result(FetchOutcome::Failure {
        message: "boom".to_string(),
    });
    assert_eq!(out, vec![ResultLine::Text("[search error] boom".to_string())]);
    assert_eq!(session.phase, SessionPhase::Tailing);

    let out = session.on_poll_result(FetchOutcome::Failure {
        message: "later".to_string(),
    });
    assert_eq!(out, vec![ResultLine::Text("[tail error] later".to_string())]);
    assert_eq!(session.phase, SessionPhase::Tailing, "one failed poll is not fatal");
}

#[test]
fn session_poll_appends_lines_without_a_header() {
    let mut session = Session::new(true);
    session.on_initial_result(FetchOutcome::Success {
        lines: Vec::new(),
        max_ts: None,
    });
    let out = session.on_poll_result(FetchOutcome::Success {
        lines: vec!["one".to_string(), "two".to_string()],
        max_ts: Some(4),
    });
    assert_eq!(
        out,
        vec![
            ResultLine::Text("one".to_string()),
            ResultLine::Text("two".to_string()),
        ]
    );
    assert_eq!(session.tail_state.last_seen_ts, Some(4));
}

#[test]
fn session_cancellation_emits_the_terminal_marker() {
    let mut session = Session::new(true);
    session.on_initial_result(FetchOutcome::Success {
        lines: Vec::new(),
        max_ts: None,
    });
    let out = session.on_cancelled();
    assert_eq!(out, vec![ResultLine::Done]);
    assert_eq!(session.phase, SessionPhase::Finished);
}

#[test]
fn searching_notice_names_the_group() {
    assert_eq!(
        lumberjack::session::searching_notice("/aws/lambda/api"),
        "Searching /aws/lambda/api ..."
    );
}

#[test]
fn group_names_of_page_keeps_named_entries_in_order() {
    let page = vec![
        Some("beta".to_string()),
        None,
        Some("alpha".to_string()),
    ];
    let names = lumberjack::fetch::group_names_of_page(page);
    assert_eq!(names, vec!["beta".to_string(), "alpha".to_string()]);
}

#[test]
fn one_shot_search_emits_header_lines_and_marker() {
    let now: i64 = 1_735_689_600_000;
    let start_ms = resolve_time_spec("-5m", now, TimeRole::Start).unwrap();
    let end_ms = resolve_time_spec("", now, TimeRole::End).unwrap();
    assert_eq!(start_ms, now - 300_000);
    assert_eq!(end_ms, now);

    let pattern = lumberjack::filter::normalize_filter_pattern("level:error");
    assert_eq!(pattern, "{ $.level = error }");

    let mut fetch = FetchState::new();
    fetch.absorb_page(page(
        vec![event(start_ms + 1, "ERROR one"), event(start_ms + 2, "ERROR two")],
        None,
    ));
    assert!(fetch.done);

    let mut session = Session::new(false);
    let out = session.on_initial_result(FetchOutcome::Success {
        lines: fetch.lines.clone(),
        max_ts: fetch.max_ts,
    });

    assert_eq!(out.len(), 4);
    assert_eq!(out[0], ResultLine::Text("--- 2 results ---".to_string()));
    match (&out[1], &out[2]) {
        (ResultLine::Text(a), ResultLine::Text(b)) => {
            assert!(a.ends_with("ERROR one"), "got: {a}");
            assert!(b.ends_with("ERROR two"), "got: {b}");
        }
        _ => panic!("expected two text lines"),
    }
    assert_eq!(out[3], ResultLine::Done);
    assert_eq!(session.phase, SessionPhase::Finished, "no tail iterations follow");
}
