use vstd::prelude::*;

use crate::keymap::Key;
use crate::state::App;
use crate::state::FilterField;
use crate::state::SavedFilter;
use crate::text::chars_to_string;
use crate::text::pop_char_str;
use crate::text::push_char_str;
use crate::text::spec_trim;
use crate::text::str_chars;
use crate::text::trim_chars;

verus! {

// ---------------------------------------------------------------------------
// The save-filter and load-filter popups.
//
// Saving records the current group and the three filter fields under a
// name, overwriting an entry of the same name; loading applies a saved
// entry back onto the form and restores its group selection when the group
// still exists. Persistence to disk happens outside; the handlers only say
// when it is due.
// ---------------------------------------------------------------------------

/// Whether `c` is a control character (the Unicode C0 and C1 ranges).
pub open spec fn spec_is_control(c: char) -> bool {
    (c as u32) < 32 || (127 <= c as u32 && c as u32 <= 159)
}

pub fn is_control_char(c: char) -> (r: bool)
    ensures
        r == spec_is_control(c),
{
    let u = c as u32;
    u < 32 || (127 <= u && u <= 159)
}

/// Index of the first saved filter with this name, or the length if none
/// has it.
pub open spec fn spec_name_index(fs: Seq<SavedFilter>, name: Seq<char>) -> int
    decreases fs.len(),
{
    if fs.len() == 0 {
        0
    } else if fs[0].name@ == name {
        0
    } else {
        1 + spec_name_index(fs.drop_first(), name)
    }
}

proof fn lemma_name_index_characterize(fs: Seq<SavedFilter>, name: Seq<char>, i: int)
    requires
        0 <= i <= fs.len(),
        forall|k: int| 0 <= k < i ==> #[trigger] fs[k].name@ != name,
        i == fs.len() || fs[i].name@ == name,
    ensures
        spec_name_index(fs, name) == i,
    decreases i,
{
    if i > 0 {
        let t = fs.drop_first();
        assert(forall|k: int| 0 <= k < i - 1 ==> #[trigger] t[k].name@ == fs[k + 1].name@);
        lemma_name_index_characterize(t, name, i - 1);
    }
}

/// Index of the first group with this name, or the length if none has it.
pub open spec fn spec_group_index(gs: Seq<String>, name: Seq<char>) -> int
    decreases gs.len(),
{
    if gs.len() == 0 {
        0
    } else if gs[0]@ == name {
        0
    } else {
        1 + spec_group_index(gs.drop_first(), name)
    }
}

proof fn lemma_group_index_characterize(gs: Seq<String>, name: Seq<char>, i: int)
    requires
        0 <= i <= gs.len(),
        forall|k: int| 0 <= k < i ==> #[trigger] gs[k]@ != name,
        i == gs.len() || gs[i]@ == name,
    ensures
        spec_group_index(gs, name) == i,
    decreases i,
{
    if i > 0 {
        let t = gs.drop_first();
        assert(forall|k: int| 0 <= k < i - 1 ==> #[trigger] t[k]@ == gs[k + 1]@);
        lemma_group_index_characterize(t, name, i - 1);
    }
}

/// The status line for a filter saved under `name`.
pub fn saved_filter_notice(name: &str) -> (r: String)
    ensures
        r@ == "Saved filter \""@ + name@ + "\""@,
{
    let mut r = String::from_str("Saved filter \"");
    r.append(name);
    r.append("\"");
    r
}

/// The status line for a filter that could not be persisted.
pub fn save_filter_error_notice(name: &str, err: &str) -> (r: String)
    ensures
        r@ == "Error saving filter \""@ + name@ + "\": "@ + err@,
{
    let mut r = String::from_str("Error saving filter \"");
    r.append(name);
    r.append("\": ");
    r.append(err);
    r
}

/// The status line for a filter loaded back onto the form.
pub fn loaded_filter_notice(name: &str) -> (r: String)
    ensures
        r@ == "Loaded filter \""@ + name@ + "\""@,
{
    let mut r = String::from_str("Loaded filter \"");
    r.append(name);
    r.append("\"");
    r
}

/// How opening the load-filter popup changes the state: with nothing saved
/// only a status message appears.
pub open spec fn spec_open_load_step(a: App, b: App, now_ms: i64) -> bool {
    if a.saved_filters@.len() == 0 {
        &&& b == (App {
            status_message: b.status_message,
            status_set_at: Some(now_ms),
            ..a
        })
        &&& (b.status_message matches Some(m) && m@ == "No saved filters"@)
    } else {
        b == (App { load_filter_selected: 0, load_filter_popup_open: true, ..a })
    }
}

/// How one key changes the save-filter popup state: the relation between
/// the state before (`a`) and after (`b`), and whether the caller must
/// persist the saved filters.
pub open spec fn spec_save_popup_step(a: App, b: App, key: Key, persist: bool) -> bool {
    match key {
        Key::Esc => !persist && b == (App { save_filter_popup_open: false, ..a }),
        Key::Enter => {
            let nm = spec_trim(a.save_filter_name@);
            if nm.len() == 0 {
                !persist && b == (App { save_filter_popup_open: false, ..a })
            } else {
                let fs = a.saved_filters@;
                let idx = spec_name_index(fs, nm);
                let grp = if a.selected_group < a.groups@.len() {
                    a.groups@[a.selected_group as int]@
                } else {
                    Seq::<char>::empty()
                };
                &&& persist
                &&& b == (App {
                    saved_filters: b.saved_filters,
                    save_filter_popup_open: false,
                    ..a
                })
                &&& b.saved_filters@.len() as int == if idx < fs.len() {
                    fs.len() as int
                } else {
                    fs.len() as int + 1
                }
                &&& forall|k: int|
                    0 <= k < fs.len() && k != idx ==> b.saved_filters@[k] == #[trigger] fs[k]
                &&& ({
                    let e = b.saved_filters@[idx];
                    e.name@ == nm && e.group@ == grp && e.start@ == a.filter_start@ && e.end@
                        == a.filter_end@ && e.query@ == a.filter_query@
                })
            }
        },
        Key::Backspace => !persist && b.save_filter_name@ == (if a.save_filter_name@.len() > 0 {
            a.save_filter_name@.drop_last()
        } else {
            a.save_filter_name@
        }) && b == (App { save_filter_name: b.save_filter_name, ..a }),
        Key::Char(c) => !persist && b.save_filter_name@ == (if !spec_is_control(c) {
            a.save_filter_name@.push(c)
        } else {
            a.save_filter_name@
        }) && b == (App { save_filter_name: b.save_filter_name, ..a }),
        _ => !persist && b == a,
    }
}

/// How one key changes the load-filter popup state, against the reference
/// instant `now_ms` (for the status timestamp).
pub open spec fn spec_load_popup_step(a: App, b: App, key: Key, now_ms: i64) -> bool {
    if a.saved_filters@.len() == 0 {
        b == (App { load_filter_popup_open: false, ..a })
    } else {
        match key {
            Key::Esc => b == (App { load_filter_popup_open: false, ..a }),
            Key::Up => b == (App {
                load_filter_selected: if a.load_filter_selected > 0 {
                    (a.load_filter_selected - 1) as usize
                } else {
                    0
                },
                ..a
            }),
            Key::Down => b == (App {
                load_filter_selected: if a.load_filter_selected + 1 < a.saved_filters@.len() {
                    (a.load_filter_selected + 1) as usize
                } else {
                    a.load_filter_selected
                },
                ..a
            }),
            Key::Enter => {
                if a.load_filter_selected < a.saved_filters@.len() {
                    let f = a.saved_filters@[a.load_filter_selected as int];
                    let gi = spec_group_index(a.groups@, f.group@);
                    &&& b.filter_start@ == f.start@
                    &&& b.filter_end@ == f.end@
                    &&& b.filter_query@ == f.query@
                    &&& (b.status_message matches Some(m) && m@ == "Loaded filter \""@ + f.name@
                        + "\""@)
                    &&& b == (App {
                        filter_start: b.filter_start,
                        filter_end: b.filter_end,
                        filter_query: b.filter_query,
                        filter_field: FilterField::Query,
                        selected_group: if f.group@.len() > 0 && gi < a.groups@.len() {
                            gi as usize
                        } else {
                            a.selected_group
                        },
                        groups_scroll: if f.group@.len() > 0 && gi < a.groups@.len() {
                            0
                        } else {
                            a.groups_scroll
                        },
                        status_message: b.status_message,
                        status_set_at: Some(now_ms),
                        load_filter_popup_open: false,
                        ..a
                    })
                } else {
                    b == (App { load_filter_popup_open: false, ..a })
                }
            },
            _ => b == a,
        }
    }
}

impl App {
    /// Opens the save-filter popup with an empty name.
    pub fn open_save_filter_popup(&mut self)
        ensures
            final(self).save_filter_name@.len() == 0,
            *final(self) == (App {
                save_filter_name: final(self).save_filter_name,
                save_filter_popup_open: true,
                ..*old(self)
            }),
    {
        self.save_filter_name = String::new();
        self.save_filter_popup_open = true;
    }

    /// Opens the load-filter popup on the first entry, or reports that
    /// nothing is saved.
    pub fn open_load_filter_popup(&mut self, now_ms: i64)
        ensures
            spec_open_load_step(*old(self), *final(self), now_ms),
    {
        if self.saved_filters.len() == 0 {
            self.status_message = Some(String::from_str("No saved filters"));
            self.status_set_at = Some(now_ms);
            return;
        }
        self.load_filter_selected = 0;
        self.load_filter_popup_open = true;
    }

    /// Handles one key in the save-filter popup. Enter with a non-blank name
    /// records the current group and filter fields under that name -
    /// overwriting the first entry of the same name - closes the popup, and
    /// asks the caller to persist; Esc only closes; Backspace and printable
    /// characters edit the name.
    #[verifier::rlimit(80)]
    pub fn handle_save_filter_popup_key(&mut self, key: Key) -> (persist: bool)
        ensures
            spec_save_popup_step(*old(self), *final(self), key, persist),
    {
        match key {
            Key::Esc => {
                self.save_filter_popup_open = false;
                false
            },
            Key::Enter => {
                let name_chars = str_chars(self.save_filter_name.as_str());
                let trimmed = trim_chars(&name_chars);
                if trimmed.len() == 0 {
                    self.save_filter_popup_open = false;
                    return false;
                }
                let name = chars_to_string(&trimmed);
                let current_group = if self.selected_group < self.groups.len() {
                    self.groups[self.selected_group].clone()
                } else {
                    String::new()
                };
                let mut i: usize = 0;
                let mut found = false;
                while i < self.saved_filters.len() && !found
                    invariant
                        i <= self.saved_filters@.len(),
                        forall|k: int| 0 <= k < i ==> #[trigger] self.saved_filters@[k].name@
                            != name@,
                        found ==> i < self.saved_filters@.len()
                            && self.saved_filters@[i as int].name@ == name@,
                        *self == *old(self),
                        name@ == spec_trim(old(self).save_filter_name@),
                    decreases self.saved_filters@.len() - i + if found { 0int } else { 1int },
                {
                    if self.saved_filters[i].name.eq(&name) {
                        found = true;
                    } else {
                        i = i + 1;
                    }
                }
                proof {
                    lemma_name_index_characterize(self.saved_filters@, name@, i as int);
                }
                let entry = SavedFilter {
                    name,
                    group: current_group,
                    start: self.filter_start.clone(),
                    end: self.filter_end.clone(),
                    query: self.filter_query.clone(),
                };
                if i < self.saved_filters.len() {
                    let ghost before = self.saved_filters@;
                    let _ = self.saved_filters.remove(i);
                    self.saved_filters.insert(i, entry);
                    proof {
                        assert(forall|k: int| 0 <= k < before.len() && k != i
                            ==> self.saved_filters@[k] == #[trigger] before[k]);
                    }
                } else {
                    self.saved_filters.push(entry);
                }
                self.save_filter_popup_open = false;
                true
            },
            Key::Backspace => {
                self.save_filter_name = pop_char_str(self.save_filter_name.as_str());
                false
            },
            Key::Char(c) => {
                if !is_control_char(c) {
                    self.save_filter_name = push_char_str(self.save_filter_name.as_str(), c);
                }
                false
            },
            _ => false,
        }
    }

    /// Handles one key in the load-filter popup. Up and Down move the
    /// selection; Enter applies the selected entry to the filter fields,
    /// restores its group when that group is still listed, reports the load,
    /// and closes; Esc only closes. With nothing saved the popup just
    /// closes.
    #[verifier::rlimit(80)]
    pub fn handle_load_filter_popup_key(&mut self, key: Key, now_ms: i64)
        ensures
            spec_load_popup_step(*old(self), *final(self), key, now_ms),
    {
        if self.saved_filters.len() == 0 {
            self.load_filter_popup_open = false;
            return;
        }
        match key {
            Key::Esc => {
                self.load_filter_popup_open = false;
            },
            Key::Up => {
                if self.load_filter_selected > 0 {
                    self.load_filter_selected = self.load_filter_selected - 1;
                }
            },
            Key::Down => {
                if self.load_filter_selected < usize::MAX && self.load_filter_selected + 1
                    < self.saved_filters.len() {
                    self.load_filter_selected = self.load_filter_selected + 1;
                }
            },
            Key::Enter => {
                if self.load_filter_selected < self.saved_filters.len() {
                    let name = self.saved_filters[self.load_filter_selected].name.clone();
                    let group = self.saved_filters[self.load_filter_selected].group.clone();
                    self.filter_start = self.saved_filters[self.load_filter_selected].start.clone();
                    self.filter_end = self.saved_filters[self.load_filter_selected].end.clone();
                    self.filter_query = self.saved_filters[self.load_filter_selected].query.clone();
                    self.filter_field = FilterField::Query;
                    if !group.as_str().is_empty() {
                        let mut gi: usize = 0;
                        let mut gfound = false;
                        while gi < self.groups.len() && !gfound
                            invariant
                                gi <= self.groups@.len(),
                                forall|k: int| 0 <= k < gi ==> #[trigger] self.groups@[k]@
                                    != group@,
                                gfound ==> gi < self.groups@.len() && self.groups@[gi as int]@
                                    == group@,
                            decreases self.groups@.len() - gi + if gfound { 0int } else { 1int },
                        {
                            if self.groups[gi].eq(&group) {
                                gfound = true;
                            } else {
                                gi = gi + 1;
                            }
                        }
                        proof {
                            lemma_group_index_characterize(self.groups@, group@, gi as int);
                        }
                        if gi < self.groups.len() {
                            self.selected_group = gi;
                            self.groups_scroll = 0;
                        }
                    }
                    let notice = loaded_filter_notice(name.as_str());
                    self.status_message = Some(notice);
                    self.status_set_at = Some(now_ms);
                }
                self.load_filter_popup_open = false;
            },
            _ => {},
        }
    }
}

} // verus!
