use vstd::prelude::*;

use crate::popups::spec_is_control;
use crate::popups::spec_load_popup_step;
use crate::popups::spec_open_load_step;
use crate::popups::spec_save_popup_step;
use crate::state::spec_clamp_scroll;
use crate::state::spec_clamped_total;
use crate::state::spec_filter_outcome;
use crate::state::spec_sel_down;
use crate::state::spec_sel_up;
use crate::state::spec_start_search_step;
use crate::state::App;
use crate::state::FilterField;
use crate::state::Focus;
use crate::text::insert_char_str;
use crate::text::pop_char_str;
use crate::text::push_char_str;
use crate::text::remove_char_str;

verus! {

// ---------------------------------------------------------------------------
// The keys the application reacts to, as plain data. The terminal layer
// translates its own key events into these before handing them over.
// ---------------------------------------------------------------------------

/// One key press.
#[derive(Copy, Clone, Debug, PartialEq, Eq, Structural)]
pub enum Key {
    Char(char),
    Enter,
    Esc,
    Backspace,
    Tab,
    Up,
    Down,
    Left,
    Right,
    Other,
}

/// What the caller must do after a key was handled: the effects that reach
/// outside the state (spawning a search worker, the clipboard, disk, the
/// cancellation flag).
pub enum Command {
    /// Nothing to do outside the state.
    Idle,
    /// Spawn a worker for this request, resetting the cancellation flag.
    Search(crate::state::SearchRequest),
    /// Copy the results text to the clipboard.
    CopyResults,
    /// Persist the saved filters to disk and report the outcome.
    PersistFilters,
    /// Tailing was switched off or the application quits: set the
    /// cancellation flag.
    StopTail,
}

/// The character length of the active filter field as displayed; the search
/// button has none.
pub open spec fn spec_active_len(a: App) -> int {
    match a.filter_field {
        FilterField::Start => a.filter_start@.len() as int,
        FilterField::End => a.filter_end@.len() as int,
        FilterField::Query => a.filter_query@.len() as int,
        FilterField::Search => 0,
    }
}

/// The field that editing keys write into: the query stands in for the
/// search button.
pub open spec fn spec_edit_view(a: App) -> Seq<char> {
    match a.filter_field {
        FilterField::Start => a.filter_start@,
        FilterField::End => a.filter_end@,
        FilterField::Query => a.filter_query@,
        FilterField::Search => a.filter_query@,
    }
}

/// That `b` is `a` with the edited field's text now `v` and the cursor at
/// `pos`.
pub open spec fn spec_edit_active(a: App, b: App, v: Seq<char>, pos: int) -> bool {
    &&& b.filter_cursor_pos == pos
    &&& match a.filter_field {
        FilterField::Start => b == (App {
            filter_start: b.filter_start,
            filter_cursor_pos: b.filter_cursor_pos,
            ..a
        }) && b.filter_start@ == v,
        FilterField::End => b == (App {
            filter_end: b.filter_end,
            filter_cursor_pos: b.filter_cursor_pos,
            ..a
        }) && b.filter_end@ == v,
        FilterField::Query => b == (App {
            filter_query: b.filter_query,
            filter_cursor_pos: b.filter_cursor_pos,
            ..a
        }) && b.filter_query@ == v,
        FilterField::Search => b == (App {
            filter_query: b.filter_query,
            filter_cursor_pos: b.filter_cursor_pos,
            ..a
        }) && b.filter_query@ == v,
    }
}

/// The theme that follows `t` in the cycle.
pub open spec fn spec_next_theme(t: Seq<char>) -> Seq<char> {
    if t == "dark"@ {
        "light"@
    } else if t == "light"@ {
        "green"@
    } else {
        "dark"@
    }
}

/// What an Up key does outside editing: move the selection, the active
/// filter row, or the results scroll, by pane.
pub open spec fn spec_up_step(a: App, b: App) -> bool {
    if a.editing {
        b == a
    } else {
        match a.focus {
            Focus::Groups => if a.groups@.len() == 0 {
                b == a
            } else {
                b == (App {
                    selected_group: spec_sel_up(a.selected_group as int) as usize,
                    groups_scroll: spec_clamp_scroll(
                        spec_sel_up(a.selected_group as int),
                        a.groups_scroll as int,
                        a.groups@.len() as int,
                        4,
                    ) as usize,
                    ..a
                })
            },
            Focus::Filter => b == (App {
                filter_field: match a.filter_field {
                    FilterField::Start => FilterField::Search,
                    FilterField::End => FilterField::Start,
                    FilterField::Query => FilterField::End,
                    FilterField::Search => FilterField::Query,
                },
                ..a
            }),
            Focus::Results => b == (App {
                results_scroll: if a.results_scroll > 0 {
                    (a.results_scroll - 1) as usize
                } else {
                    0
                },
                ..a
            }),
        }
    }
}

/// What a Down key does outside editing.
pub open spec fn spec_down_step(a: App, b: App) -> bool {
    if a.editing {
        b == a
    } else {
        match a.focus {
            Focus::Groups => if a.groups@.len() == 0 {
                b == a
            } else {
                b == (App {
                    selected_group: spec_sel_down(
                        a.selected_group as int,
                        a.groups@.len() as int,
                    ) as usize,
                    groups_scroll: spec_clamp_scroll(
                        spec_sel_down(a.selected_group as int, a.groups@.len() as int),
                        a.groups_scroll as int,
                        a.groups@.len() as int,
                        4,
                    ) as usize,
                    ..a
                })
            },
            Focus::Filter => b == (App {
                filter_field: match a.filter_field {
                    FilterField::Start => FilterField::End,
                    FilterField::End => FilterField::Query,
                    FilterField::Query => FilterField::Search,
                    FilterField::Search => FilterField::Start,
                },
                ..a
            }),
            Focus::Results => b == (App {
                results_scroll: if a.results_scroll + 1 < spec_clamped_total(
                    a.lines.deep_view(),
                ) {
                    (a.results_scroll + 1) as usize
                } else {
                    a.results_scroll
                },
                ..a
            }),
        }
    }
}

/// That `b` is `a` with the given quick time preset applied.
pub open spec fn spec_preset_step(a: App, b: App, start: Seq<char>) -> bool {
    &&& b == (App {
        filter_start: b.filter_start,
        filter_end: b.filter_end,
        filter_field: FilterField::Query,
        editing: false,
        ..a
    })
    &&& b.filter_start@ == start
    &&& b.filter_end@.len() == 0
}

/// What a printable-or-not character key does outside the popups, by the
/// dispatch order: quitting, starting a group search, feeding the group
/// search, editing the active field, and the single-letter commands.
pub open spec fn spec_char_step(a: App, b: App, c: char, now_ms: i64, cmd: Command) -> bool {
    if c == 'q' && !a.editing && !a.group_search_active {
        cmd is StopTail && b == (App { exit: true, ..a })
    } else if c == '/' && a.focus == Focus::Groups && !a.editing {
        cmd is Idle && b == (App { group_search_active: true, ..a })
    } else if a.group_search_active {
        &&& cmd is Idle
        &&& if !spec_is_control(c) {
            &&& b.group_search_input@ == a.group_search_input@.push(c)
            &&& spec_filter_outcome(a.all_groups@, b.group_search_input@, true, b.groups@)
            &&& b == (App {
                group_search_input: b.group_search_input,
                groups: b.groups,
                selected_group: 0,
                groups_scroll: 0,
                ..a
            })
        } else {
            b == a
        }
    } else if a.editing {
        &&& cmd is Idle
        &&& if !spec_is_control(c) && a.filter_cursor_pos < usize::MAX
            && a.filter_cursor_pos <= spec_edit_view(a).len() {
            spec_edit_active(
                a,
                b,
                spec_edit_view(a).insert(a.filter_cursor_pos as int, c),
                a.filter_cursor_pos + 1,
            )
        } else {
            b == a
        }
    } else if c == 'y' && a.focus == Focus::Results {
        cmd is CopyResults && b == a
    } else if c == 't' {
        &&& b == (App { tail_mode: !a.tail_mode, ..a })
        &&& if a.tail_mode {
            cmd is StopTail
        } else {
            cmd is Idle
        }
    } else if c == 's' && a.focus == Focus::Filter {
        cmd is Idle && b.save_filter_name@.len() == 0 && b == (App {
            save_filter_name: b.save_filter_name,
            save_filter_popup_open: true,
            ..a
        })
    } else if c == 'F' {
        cmd is Idle && spec_open_load_step(a, b, now_ms)
    } else if c == '1' && a.focus == Focus::Filter {
        cmd is Idle && spec_preset_step(a, b, "-5m"@)
    } else if c == '2' && a.focus == Focus::Filter {
        cmd is Idle && spec_preset_step(a, b, "-15m"@)
    } else if c == '3' && a.focus == Focus::Filter {
        cmd is Idle && spec_preset_step(a, b, "-1h"@)
    } else if c == '4' && a.focus == Focus::Filter {
        cmd is Idle && spec_preset_step(a, b, "-24m"@)
    } else if c == 'T' {
        cmd is Idle && b == (App { theme_name: b.theme_name, ..a }) && b.theme_name@
            == spec_next_theme(a.theme_name@)
    } else {
        cmd is Idle && b == a
    }
}

/// What one key does: the popups see every key first; otherwise the key is
/// dispatched by the binding order below.
pub open spec fn spec_key_step(a: App, b: App, key: Key, now_ms: i64, cmd: Command) -> bool {
    if a.save_filter_popup_open {
        spec_save_popup_step(a, b, key, cmd is PersistFilters) && (cmd is PersistFilters || cmd
            is Idle)
    } else if a.load_filter_popup_open {
        cmd is Idle && spec_load_popup_step(a, b, key, now_ms)
    } else {
        match key {
            Key::Char(c) => spec_char_step(a, b, c, now_ms, cmd),
            Key::Tab => cmd is Idle && if !a.editing {
                b == (App {
                    focus: match a.focus {
                        Focus::Groups => Focus::Filter,
                        Focus::Filter => Focus::Groups,
                        Focus::Results => Focus::Groups,
                    },
                    ..a
                })
            } else {
                b == a
            },
            Key::Esc => cmd is Idle && if a.group_search_active {
                &&& b.group_search_input@.len() == 0
                &&& b.groups@ == a.all_groups@
                &&& b == (App {
                    group_search_active: false,
                    group_search_input: b.group_search_input,
                    groups: b.groups,
                    selected_group: 0,
                    groups_scroll: 0,
                    ..a
                })
            } else {
                b == (App { editing: false, ..a })
            },
            Key::Enter => if a.group_search_active {
                cmd is Idle && b == (App { group_search_active: false, ..a })
            } else if a.focus == Focus::Filter && a.filter_field == FilterField::Search
                && !a.editing {
                if a.selected_group < a.groups@.len() {
                    cmd matches Command::Search(req) && spec_start_search_step(a, b, Some(req))
                } else {
                    cmd is Idle && spec_start_search_step(a, b, None)
                }
            } else {
                cmd is Idle && b == (App {
                    editing: !a.editing,
                    filter_cursor_pos: if !a.editing {
                        spec_active_len(a) as usize
                    } else {
                        a.filter_cursor_pos
                    },
                    ..a
                })
            },
            Key::Backspace => cmd is Idle && if a.group_search_active {
                &&& b.group_search_input@ == (if a.group_search_input@.len() > 0 {
                    a.group_search_input@.drop_last()
                } else {
                    a.group_search_input@
                })
                &&& spec_filter_outcome(a.all_groups@, b.group_search_input@, true, b.groups@)
                &&& b == (App {
                    group_search_input: b.group_search_input,
                    groups: b.groups,
                    selected_group: 0,
                    groups_scroll: 0,
                    ..a
                })
            } else if a.editing {
                if a.filter_cursor_pos > 0 && spec_active_len(a) > 0 && a.filter_cursor_pos
                    <= spec_edit_view(a).len() {
                    spec_edit_active(
                        a,
                        b,
                        spec_edit_view(a).remove(a.filter_cursor_pos - 1),
                        a.filter_cursor_pos - 1,
                    )
                } else {
                    b == a
                }
            } else {
                b == a
            },
            Key::Left => cmd is Idle && if a.editing {
                b == (App {
                    filter_cursor_pos: if a.filter_cursor_pos > 0 {
                        (a.filter_cursor_pos - 1) as usize
                    } else {
                        0
                    },
                    ..a
                })
            } else {
                b == a
            },
            Key::Right => cmd is Idle && if a.editing {
                b == (App {
                    filter_cursor_pos: if a.filter_cursor_pos < spec_active_len(a) {
                        (a.filter_cursor_pos + 1) as usize
                    } else {
                        a.filter_cursor_pos
                    },
                    ..a
                })
            } else {
                b == a
            },
            Key::Up => cmd is Idle && spec_up_step(a, b),
            Key::Down => cmd is Idle && spec_down_step(a, b),
            Key::Other => cmd is Idle && b == a,
        }
    }
}

impl App {
    /// Handles one key press and reports what must happen outside the
    /// state. An open popup sees the key first; otherwise the key acts by
    /// a fixed binding order: quit, pane switching, the group search, filter
    /// editing, search start, navigation, and the single-letter commands.
    pub fn handle_key_event(&mut self, key: Key, now_ms: i64) -> (cmd: Command)
        ensures
            spec_key_step(*old(self), *final(self), key, now_ms, cmd),
    {
        if self.save_filter_popup_open {
            let persist = self.handle_save_filter_popup_key(key);
            if persist {
                return Command::PersistFilters;
            } else {
                return Command::Idle;
            }
        }
        if self.load_filter_popup_open {
            self.handle_load_filter_popup_key(key, now_ms);
            return Command::Idle;
        }
        match key {
            Key::Char(c) => self.handle_char_key(c, now_ms),
            Key::Tab => {
                if !self.editing {
                    self.focus = match self.focus {
                        Focus::Groups => Focus::Filter,
                        Focus::Filter => Focus::Groups,
                        Focus::Results => Focus::Groups,
                    };
                }
                Command::Idle
            },
            Key::Esc => {
                if self.group_search_active {
                    self.group_search_active = false;
                    self.group_search_input = String::new();
                    self.apply_group_search_filter();
                } else {
                    self.editing = false;
                }
                Command::Idle
            },
            Key::Enter => {
                if self.group_search_active {
                    self.group_search_active = false;
                    Command::Idle
                } else if self.focus == Focus::Filter && self.filter_field == FilterField::Search
                    && !self.editing {
                    match self.start_search() {
                        Some(req) => Command::Search(req),
                        None => Command::Idle,
                    }
                } else {
                    if !self.editing {
                        self.filter_cursor_pos = self.active_field_len();
                    }
                    self.editing = !self.editing;
                    Command::Idle
                }
            },
            Key::Backspace => {
                if self.group_search_active {
                    self.group_search_input = pop_char_str(self.group_search_input.as_str());
                    self.apply_group_search_filter();
                } else if self.editing {
                    let len = self.active_field_len();
                    let pos = self.filter_cursor_pos;
                    if pos > 0 && len > 0 {
                        self.remove_in_edit_field(pos);
                    }
                }
                Command::Idle
            },
            Key::Left => {
                if self.editing && self.filter_cursor_pos > 0 {
                    self.filter_cursor_pos = self.filter_cursor_pos - 1;
                }
                Command::Idle
            },
            Key::Right => {
                if self.editing {
                    let len = self.active_field_len();
                    if self.filter_cursor_pos < len {
                        self.filter_cursor_pos = self.filter_cursor_pos + 1;
                    }
                }
                Command::Idle
            },
            Key::Up => {
                if !self.editing {
                    match self.focus {
                        Focus::Groups => self.groups_up(),
                        Focus::Filter => self.filter_prev(),
                        Focus::Results => self.results_up(),
                    }
                }
                Command::Idle
            },
            Key::Down => {
                if !self.editing {
                    match self.focus {
                        Focus::Groups => self.groups_down(),
                        Focus::Filter => self.filter_next(),
                        Focus::Results => self.results_down(),
                    }
                }
                Command::Idle
            },
            Key::Other => Command::Idle,
        }
    }

    /// Removes the character before the cursor from the edited field, when
    /// the cursor sits within it.
    fn remove_in_edit_field(&mut self, pos: usize)
        requires
            pos == old(self).filter_cursor_pos,
            pos > 0,
        ensures
            if pos <= spec_edit_view(*old(self)).len() {
                spec_edit_active(
                    *old(self),
                    *final(self),
                    spec_edit_view(*old(self)).remove(pos - 1),
                    pos - 1,
                )
            } else {
                *final(self) == *old(self)
            },
    {
        match self.filter_field {
            FilterField::Start => {
                if pos <= self.filter_start.as_str().unicode_len() {
                    self.filter_start = remove_char_str(self.filter_start.as_str(), pos - 1);
                    self.filter_cursor_pos = pos - 1;
                }
            },
            FilterField::End => {
                if pos <= self.filter_end.as_str().unicode_len() {
                    self.filter_end = remove_char_str(self.filter_end.as_str(), pos - 1);
                    self.filter_cursor_pos = pos - 1;
                }
            },
            FilterField::Query | FilterField::Search => {
                if pos <= self.filter_query.as_str().unicode_len() {
                    self.filter_query = remove_char_str(self.filter_query.as_str(), pos - 1);
                    self.filter_cursor_pos = pos - 1;
                }
            },
        }
    }

    /// Inserts `c` at the cursor in the edited field, when the cursor sits
    /// within it.
    fn insert_in_edit_field(&mut self, c: char)
        ensures
            if old(self).filter_cursor_pos < usize::MAX && old(self).filter_cursor_pos
                <= spec_edit_view(*old(self)).len() {
                spec_edit_active(
                    *old(self),
                    *final(self),
                    spec_edit_view(*old(self)).insert(old(self).filter_cursor_pos as int, c),
                    old(self).filter_cursor_pos + 1,
                )
            } else {
                *final(self) == *old(self)
            },
    {
        let pos = self.filter_cursor_pos;
        if pos == usize::MAX {
            return ;
        }
        match self.filter_field {
            FilterField::Start => {
                if pos <= self.filter_start.as_str().unicode_len() {
                    self.filter_start = insert_char_str(self.filter_start.as_str(), pos, c);
                    self.filter_cursor_pos = pos + 1;
                }
            },
            FilterField::End => {
                if pos <= self.filter_end.as_str().unicode_len() {
                    self.filter_end = insert_char_str(self.filter_end.as_str(), pos, c);
                    self.filter_cursor_pos = pos + 1;
                }
            },
            FilterField::Query | FilterField::Search => {
                if pos <= self.filter_query.as_str().unicode_len() {
                    self.filter_query = insert_char_str(self.filter_query.as_str(), pos, c);
                    self.filter_cursor_pos = pos + 1;
                }
            },
        }
    }

    /// Handles a character key outside the popups.
    fn handle_char_key(&mut self, c: char, now_ms: i64) -> (cmd: Command)
        ensures
            spec_char_step(*old(self), *final(self), c, now_ms, cmd),
    {
        if c == 'q' && !self.editing && !self.group_search_active {
            self.exit = true;
            return Command::StopTail;
        }
        if c == '/' && self.focus == Focus::Groups && !self.editing {
            self.group_search_active = true;
            return Command::Idle;
        }
        if self.group_search_active {
            if !crate::popups::is_control_char(c) {
                self.group_search_input = push_char_str(self.group_search_input.as_str(), c);
                self.apply_group_search_filter();
            }
            return Command::Idle;
        }
        if self.editing {
            if !crate::popups::is_control_char(c) {
                self.insert_in_edit_field(c);
            }
            return Command::Idle;
        }
        if c == 'y' && self.focus == Focus::Results {
            return Command::CopyResults;
        }
        if c == 't' {
            let was_tailing = self.tail_mode;
            self.tail_mode = !self.tail_mode;
            if was_tailing {
                return Command::StopTail;
            } else {
                return Command::Idle;
            }
        }
        if c == 's' && self.focus == Focus::Filter {
            self.open_save_filter_popup();
            return Command::Idle;
        }
        if c == 'F' {
            self.open_load_filter_popup(now_ms);
            return Command::Idle;
        }
        if c == '1' && self.focus == Focus::Filter {
            self.apply_time_preset("-5m");
            return Command::Idle;
        }
        if c == '2' && self.focus == Focus::Filter {
            self.apply_time_preset("-15m");
            return Command::Idle;
        }
        if c == '3' && self.focus == Focus::Filter {
            self.apply_time_preset("-1h");
            return Command::Idle;
        }
        if c == '4' && self.focus == Focus::Filter {
            self.apply_time_preset("-24m");
            return Command::Idle;
        }
        if c == 'T' {
            if self.theme_name.eq(&String::from_str("dark")) {
                self.theme_name = String::from_str("light");
            } else if self.theme_name.eq(&String::from_str("light")) {
                self.theme_name = String::from_str("green");
            } else {
                self.theme_name = String::from_str("dark");
            }
            return Command::Idle;
        }
        Command::Idle
    }
}

} // verus!
