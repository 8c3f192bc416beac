use lumberjack::session::ResultLine;
use lumberjack::state::{App, FilterField, Focus};

fn app_with_groups(groups: Vec<&str>) -> App {
    let groups_owned: Vec<String> = groups.iter().map(|s| s.to_string()).collect();

    App {
        app_title: "Test".to_string(),
        theme_name: "dark".to_string(),
        exit: false,
        lines: Vec::new(),
        filter_cursor_pos: 0,

        all_groups: groups_owned.clone(),
        groups: groups_owned,
        selected_group: 0,
        groups_scroll: 0,

        profile: "test-profile".to_string(),
        region: "eu-west-1".to_string(),
        focus: Focus::Groups,

        filter_start: String::new(),
        filter_end: String::new(),
        filter_query: String::new(),
        filter_field: FilterField::Query,
        editing: false,
        cursor_on: true,

        group_search_active: false,
        group_search_input: String::new(),

        searching: false,
        dots: 0,
        results_scroll: 0,

        tail_mode: false,

        status_message: None,
        status_set_at: None,

        saved_filters: Vec::new(),
        save_filter_popup_open: false,
        save_filter_name: String::new(),
        load_filter_popup_open: false,
        load_filter_selected: 0,
    }
}

fn app_with_results(lines: Vec<&str>) -> App {
    let mut app = app_with_groups(Vec::new());
    app.lines = lines.into_iter().map(|s| s.to_string()).collect();
    app.focus = Focus::Results;
    app
}

#[test]
fn results_text_joins_lines_with_newlines() {
    let app = app_with_results(vec!["line1", "line2", "line3"]);
    let text = app.results_text();
    assert_eq!(text, "line1\nline2\nline3");
}

#[test]
fn results_text_handles_embedded_newlines() {
    let app = app_with_results(vec!["line1a\nline1b", "line2"]);
    let text = app.results_text();
    assert_eq!(text, "line1a\nline1b\nline2");
}

#[test]
fn fuzzy_match_empty_needle_matches_anything() {
    assert!(App::fuzzy_match("hello", ""));
    assert!(App::fuzzy_match("", ""));
}

#[test]
fn fuzzy_match_simple_subsequence() {
    assert!(App::fuzzy_match("aws-lambda-api", "ala"));
    assert!(App::fuzzy_match("/aws/lambda/foo", "alf"));
    assert!(!App::fuzzy_match("cloudwatch", "cwz"));
}

#[test]
fn fuzzy_match_case_insensitive() {
    assert!(App::fuzzy_match("AWS-LAMBDA", "aws"));
    assert!(App::fuzzy_match("aws-lambda", "AWS"));
}

#[test]
fn apply_group_search_filter_restores_full_list_when_inactive() {
    let mut app = app_with_groups(vec!["/aws/lambda/api", "/aws/lambda/worker"]);

    app.group_search_active = false;
    app.group_search_input = "api".to_string();
    app.apply_group_search_filter();

    assert_eq!(app.groups.len(), 2);
    assert_eq!(app.groups[0], "/aws/lambda/api");
    assert_eq!(app.groups[1], "/aws/lambda/worker");
}

#[test]
fn apply_group_search_filter_filters_when_active() {
    let mut app = app_with_groups(vec!["/aws/lambda/api", "/aws/lambda/worker"]);

    app.group_search_active = true;
    app.group_search_input = "wrk".to_string();

    app.apply_group_search_filter();

    assert_eq!(app.groups.len(), 1);
    assert_eq!(app.groups[0], "/aws/lambda/worker");
    assert_eq!(app.selected_group, 0);
    assert_eq!(app.groups_scroll, 0);
}

#[test]
fn apply_group_search_filter_no_matches_shows_placeholder() {
    let mut app = app_with_groups(vec!["/aws/lambda/api", "/aws/lambda/worker"]);

    app.group_search_active = true;
    app.group_search_input = "xyz".to_string();

    app.apply_group_search_filter();

    assert_eq!(app.groups.len(), 1);
    assert_eq!(app.groups[0], "(no matches)");
    assert_eq!(app.selected_group, 0);
}

#[test]
fn apply_group_search_filter_clearing_input_restores_all_groups() {
    let mut app = app_with_groups(vec!["/aws/lambda/api", "/aws/lambda/worker"]);

    app.group_search_active = true;
    app.group_search_input = "api".to_string();
    app.apply_group_search_filter();
    assert_eq!(app.groups.len(), 1);

    app.group_search_input.clear();
    app.apply_group_search_filter();

    assert_eq!(app.groups.len(), 2);
    assert_eq!(app.groups[0], "/aws/lambda/api");
    assert_eq!(app.groups[1], "/aws/lambda/worker");
}

#[test]
fn apply_time_preset_sets_start_and_clears_end() {
    let mut app = app_with_groups(vec!["/aws/lambda/api"]);

    app.filter_start = "2025-12-11T10:00:00Z".to_string();
    app.filter_end = "2025-12-11T11:00:00Z".to_string();
    app.filter_field = FilterField::Start;
    app.editing = true;

    app.apply_time_preset("-15m");

    assert_eq!(app.filter_start, "-15m");
    assert_eq!(app.filter_end, "");
    assert_eq!(app.filter_field, FilterField::Query);
    assert!(!app.editing);
}

#[test]
fn maybe_clear_status_clears_after_timeout() {
    let mut app = app_with_groups(vec!["/aws/lambda/api"]);
    let now: i64 = 1_000_000;
    app.status_message = Some("test".to_string());
    app.status_set_at = Some(now - 3000);

    app.maybe_clear_status(now);

    assert!(
        app.status_message.is_none(),
        "expected status_message to be cleared after timeout"
    );
    assert!(
        app.status_set_at.is_none(),
        "expected status_set_at to be cleared after timeout"
    );
}

#[test]
fn maybe_clear_status_keeps_recent_message() {
    let mut app = app_with_groups(vec!["/aws/lambda/api"]);
    let now: i64 = 1_000_000;
    app.status_message = Some("fresh".to_string());
    app.status_set_at = Some(now - 500);

    app.maybe_clear_status(now);

    assert_eq!(app.status_message.as_deref(), Some("fresh"));
}

#[test]
fn start_search_resets_state_and_carries_the_form() {
    let mut app = app_with_groups(vec!["/aws/lambda/api", "/aws/lambda/worker"]);
    app.selected_group = 1;
    app.filter_start = "-5m".to_string();
    app.filter_query = "level:error".to_string();
    app.tail_mode = true;
    app.lines = vec!["old".to_string()];
    app.results_scroll = 3;

    let req = app.start_search().expect("a group is selected");

    assert!(app.searching);
    assert_eq!(app.focus, Focus::Results);
    assert!(app.lines.is_empty());
    assert_eq!(app.results_scroll, 0);
    assert_eq!(req.group, "/aws/lambda/worker");
    assert_eq!(req.start, "-5m");
    assert_eq!(req.end, "");
    assert_eq!(req.pattern, "level:error");
    assert!(req.tail);
}

#[test]
fn start_search_without_group_yields_no_request() {
    let mut app = app_with_groups(Vec::new());
    assert!(app.start_search().is_none());
    assert!(app.searching);
}

#[test]
fn ingest_done_ends_searching_and_focuses_results() {
    let mut app = app_with_groups(vec!["g"]);
    app.searching = true;
    app.focus = Focus::Filter;

    app.ingest(ResultLine::Done);

    assert!(!app.searching);
    assert_eq!(app.focus, Focus::Results);
}

#[test]
fn ingest_appends_lines_in_order() {
    let mut app = app_with_groups(vec!["g"]);
    app.ingest(ResultLine::Text("first".to_string()));
    app.ingest(ResultLine::Text("second".to_string()));
    assert_eq!(app.lines, vec!["first".to_string(), "second".to_string()]);
}

#[test]
fn ingest_evicts_oldest_entries_past_the_cap() {
    let mut app = app_with_groups(vec!["g"]);
    for i in 0..2001 {
        app.ingest(ResultLine::Text(format!("line {i}")));
    }
    assert_eq!(app.lines.len(), 1501);
    assert_eq!(app.lines[0], "line 500");
    assert_eq!(app.lines[1500], "line 2000");
}

#[test]
fn ingest_clamps_the_scroll_offset() {
    let mut app = app_with_groups(vec!["g"]);
    app.lines = vec!["a".to_string(), "b".to_string()];
    app.results_scroll = 10;

    app.ingest(ResultLine::Text("c".to_string()));

    assert_eq!(app.results_scroll, 1);
}

#[test]
fn results_total_lines_counts_embedded_newlines() {
    let app = app_with_results(vec!["a\nb", "c"]);
    assert_eq!(app.results_total_lines(), 3);
}

#[test]
fn groups_navigation_clamps_selection_and_scroll() {
    let mut app = app_with_groups(vec!["g0", "g1", "g2", "g3", "g4", "g5"]);
    for _ in 0..10 {
        app.groups_down();
    }
    assert_eq!(app.selected_group, 5);
    assert_eq!(app.groups_scroll, 2);
    for _ in 0..10 {
        app.groups_up();
    }
    assert_eq!(app.selected_group, 0);
    assert_eq!(app.groups_scroll, 0);
}
