use lumberjack::keymap::Key;
use lumberjack::state::{App, FilterField, Focus, SavedFilter};

fn app_with_filter_state() -> App {
    App {
        app_title: "Test".to_string(),
        theme_name: "dark".to_string(),
        exit: false,
        lines: Vec::new(),
        filter_cursor_pos: 0,

        all_groups: Vec::new(),
        groups: Vec::new(),
        selected_group: 0,
        groups_scroll: 0,

        profile: "test-profile".to_string(),
        region: "eu-west-1".to_string(),
        focus: Focus::Filter,

        filter_start: String::new(),
        filter_end: String::new(),
        filter_query: String::new(),
        filter_field: FilterField::Query,
        editing: false,
        cursor_on: true,

        group_search_active: false,
        group_search_input: String::new(),

        searching: false,
        dots: 0,
        results_scroll: 0,

        tail_mode: false,

        status_message: None,
        status_set_at: None,

        saved_filters: Vec::new(),
        save_filter_popup_open: false,
        save_filter_name: String::new(),
        load_filter_popup_open: false,
        load_filter_selected: 0,
    }
}

fn saved(name: &str, group: &str, start: &str, end: &str, query: &str) -> SavedFilter {
    SavedFilter {
        name: name.to_string(),
        group: group.to_string(),
        start: start.to_string(),
        end: end.to_string(),
        query: query.to_string(),
    }
}

const NOW: i64 = 1_000_000;

#[test]
fn save_filter_creates_new_entry() {
    let mut app = app_with_filter_state();
    app.filter_start = "-5m".to_string();
    app.filter_end = "".to_string();
    app.filter_query = "routing_id=123".to_string();

    app.open_save_filter_popup();
    app.save_filter_name = "quick-errors".to_string();
    app.handle_save_filter_popup_key(Key::Enter);

    assert_eq!(app.saved_filters.len(), 1);
    let f = &app.saved_filters[0];
    assert_eq!(f.name, "quick-errors");
    assert_eq!(f.start, "-5m");
    assert_eq!(f.end, "");
    assert_eq!(f.query, "routing_id=123");
}

#[test]
fn save_filter_overwrites_existing_entry_with_same_name() {
    let mut app = app_with_filter_state();
    app.saved_filters.push(saved("quick-errors", "", "-5m", "", "routing_id=111"));

    app.filter_start = "-15m".to_string();
    app.filter_end = "".to_string();
    app.filter_query = "routing_id=222".to_string();

    app.open_save_filter_popup();
    app.save_filter_name = "quick-errors".to_string();
    app.handle_save_filter_popup_key(Key::Enter);

    assert_eq!(app.saved_filters.len(), 1);
    let f = &app.saved_filters[0];
    assert_eq!(f.name, "quick-errors");
    assert_eq!(f.start, "-15m");
    assert_eq!(f.end, "");
    assert_eq!(f.query, "routing_id=222");
}

#[test]
fn load_filter_applies_selected_values_to_filter_fields() {
    let mut app = app_with_filter_state();
    app.saved_filters.push(saved("last-hour-errors", "", "-1h", "", "level=error"));

    app.open_load_filter_popup(NOW);
    app.handle_load_filter_popup_key(Key::Enter, NOW);

    assert_eq!(app.filter_start, "-1h");
    assert_eq!(app.filter_end, "");
    assert_eq!(app.filter_query, "level=error");
}

#[test]
fn load_filter_popup_moves_selection_with_up_down() {
    let mut app = app_with_filter_state();
    app.saved_filters.push(saved("first", "", "-5m", "", "a=1"));
    app.saved_filters.push(saved("second", "", "-15m", "", "b=2"));

    app.open_load_filter_popup(NOW);
    assert_eq!(app.load_filter_selected, 0);

    app.handle_load_filter_popup_key(Key::Down, NOW);
    assert_eq!(app.load_filter_selected, 1);

    app.handle_load_filter_popup_key(Key::Up, NOW);
    assert_eq!(app.load_filter_selected, 0);
}

#[test]
fn save_and_load_filter_persists_group_selection() {
    let mut app = app_with_filter_state();
    app.groups = vec![
        "/aws/lambda/first".to_string(),
        "/aws/lambda/second".to_string(),
    ];
    app.selected_group = 1;

    app.filter_start = "-5m".to_string();
    app.filter_end = "".to_string();
    app.filter_query = "routing_id=999".to_string();

    app.open_save_filter_popup();
    app.save_filter_name = "with-group".to_string();
    app.handle_save_filter_popup_key(Key::Enter);

    assert_eq!(app.saved_filters.len(), 1);
    let f = &app.saved_filters[0];
    assert_eq!(f.group, "/aws/lambda/second");

    app.selected_group = 0;
    app.open_load_filter_popup(NOW);
    app.handle_load_filter_popup_key(Key::Enter, NOW);

    assert_eq!(app.selected_group, 1);
    assert_eq!(app.groups[app.selected_group], "/aws/lambda/second");
}

#[test]
fn save_filter_enter_asks_for_persistence() {
    let mut app = app_with_filter_state();
    app.open_save_filter_popup();
    app.save_filter_name = "named".to_string();
    assert!(app.handle_save_filter_popup_key(Key::Enter));
    assert!(!app.save_filter_popup_open);
}

#[test]
fn save_filter_blank_name_saves_nothing() {
    let mut app = app_with_filter_state();
    app.open_save_filter_popup();
    app.save_filter_name = "   ".to_string();
    assert!(!app.handle_save_filter_popup_key(Key::Enter));
    assert!(app.saved_filters.is_empty());
    assert!(!app.save_filter_popup_open);
}

#[test]
fn save_filter_name_edits_with_backspace_and_chars() {
    let mut app = app_with_filter_state();
    app.open_save_filter_popup();
    app.handle_save_filter_popup_key(Key::Char('a'));
    app.handle_save_filter_popup_key(Key::Char('b'));
    app.handle_save_filter_popup_key(Key::Backspace);
    app.handle_save_filter_popup_key(Key::Char('c'));
    assert_eq!(app.save_filter_name, "ac");
}

#[test]
fn open_load_filter_popup_reports_when_nothing_is_saved() {
    let mut app = app_with_filter_state();
    app.open_load_filter_popup(NOW);
    assert!(!app.load_filter_popup_open);
    assert_eq!(app.status_message.as_deref(), Some("No saved filters"));
}

#[test]
fn cursor_moves_and_inserts_in_middle_of_query() {
    let mut app = app_with_filter_state();
    app.filter_query = "abc".to_string();
    app.focus = Focus::Filter;

    app.handle_key_event(Key::Enter, NOW);
    assert!(app.editing);
    assert_eq!(app.filter_cursor_pos, 3);

    app.handle_key_event(Key::Left, NOW);
    assert_eq!(app.filter_cursor_pos, 2);

    app.handle_key_event(Key::Char('X'), NOW);
    assert_eq!(app.filter_query, "abXc");
    assert_eq!(app.filter_cursor_pos, 3);

    app.handle_key_event(Key::Backspace, NOW);
    assert_eq!(app.filter_query, "abc");
    assert_eq!(app.filter_cursor_pos, 2);
}

#[test]
fn tab_switches_panes_and_quit_sets_exit() {
    let mut app = app_with_filter_state();
    app.focus = Focus::Groups;
    app.handle_key_event(Key::Tab, NOW);
    assert_eq!(app.focus, Focus::Filter);
    app.handle_key_event(Key::Tab, NOW);
    assert_eq!(app.focus, Focus::Groups);

    let cmd = app.handle_key_event(Key::Char('q'), NOW);
    assert!(app.exit);
    assert!(matches!(cmd, lumberjack::keymap::Command::StopTail));
}

#[test]
fn group_search_keys_narrow_and_escape_restores() {
    let mut app = app_with_filter_state();
    app.all_groups = vec!["alpha".to_string(), "beta".to_string()];
    app.groups = app.all_groups.clone();
    app.focus = Focus::Groups;

    app.handle_key_event(Key::Char('/'), NOW);
    assert!(app.group_search_active);

    app.handle_key_event(Key::Char('b'), NOW);
    assert_eq!(app.groups, vec!["beta".to_string()]);

    app.handle_key_event(Key::Esc, NOW);
    assert!(!app.group_search_active);
    assert_eq!(app.groups.len(), 2);
}

#[test]
fn time_preset_keys_fill_the_form() {
    let mut app = app_with_filter_state();
    app.focus = Focus::Filter;
    app.handle_key_event(Key::Char('2'), NOW);
    assert_eq!(app.filter_start, "-15m");
    assert_eq!(app.filter_end, "");
    assert_eq!(app.filter_field, FilterField::Query);
}

#[test]
fn theme_key_cycles_the_palette_names() {
    let mut app = app_with_filter_state();
    assert_eq!(app.theme_name, "dark");
    app.handle_key_event(Key::Char('T'), NOW);
    assert_eq!(app.theme_name, "light");
    app.handle_key_event(Key::Char('T'), NOW);
    assert_eq!(app.theme_name, "green");
    app.handle_key_event(Key::Char('T'), NOW);
    assert_eq!(app.theme_name, "dark");
}

#[test]
fn enter_on_search_button_starts_a_search() {
    let mut app = app_with_filter_state();
    app.all_groups = vec!["g".to_string()];
    app.groups = app.all_groups.clone();
    app.focus = Focus::Filter;
    app.filter_field = FilterField::Search;

    let cmd = app.handle_key_event(Key::Enter, NOW);
    match cmd {
        lumberjack::keymap::Command::Search(req) => {
            assert_eq!(req.group, "g");
            assert!(!req.tail);
        }
        _ => panic!("expected a search command"),
    }
    assert!(app.searching);
}
