use vstd::prelude::*;

use crate::text::lemma_line_count_bounds;
use crate::text::line_count;
use crate::text::spec_line_count;

verus! {

// ---------------------------------------------------------------------------
// The interactive application's state.
//
// Everything here is plain data: the pane in focus, the group list and its
// selection, the filter form, the result lines, popup state. Instants are
// milliseconds handed in by the caller, and the worker's channel, terminal
// and clipboard live outside; the state never touches them.
// ---------------------------------------------------------------------------

/// Which pane has focus.
#[derive(Copy, Clone, Debug, PartialEq, Eq, Structural)]
pub enum Focus {
    Groups,
    Filter,
    Results,
}

/// Which row of the filter form is active.
#[derive(Copy, Clone, Debug, PartialEq, Eq, Structural)]
pub enum FilterField {
    Start,
    End,
    Query,
    Search,
}

/// A named, saved filter form: the group it applied to and the three field
/// values.
#[derive(Clone, Debug)]
pub struct SavedFilter {
    pub name: String,
    pub group: String,
    pub start: String,
    pub end: String,
    pub query: String,
}

/// The state of the terminal application.
pub struct App {
    pub app_title: String,
    /// The active theme's name; the palettes themselves are presentation.
    pub theme_name: String,
    pub exit: bool,
    /// The displayed result lines, in arrival order.
    pub lines: Vec<String>,
    /// Character position of the cursor within the active filter field.
    pub filter_cursor_pos: usize,

    pub all_groups: Vec<String>,
    pub groups: Vec<String>,
    pub selected_group: usize,
    pub groups_scroll: usize,

    pub profile: String,
    pub region: String,
    pub focus: Focus,

    pub filter_start: String,
    pub filter_end: String,
    pub filter_query: String,
    pub filter_field: FilterField,
    pub editing: bool,
    pub cursor_on: bool,

    pub group_search_active: bool,
    pub group_search_input: String,

    pub searching: bool,
    pub dots: usize,
    pub results_scroll: usize,

    pub tail_mode: bool,

    pub status_message: Option<String>,
    /// When the status message was set, in milliseconds.
    pub status_set_at: Option<i64>,

    pub saved_filters: Vec<SavedFilter>,
    pub save_filter_popup_open: bool,
    pub save_filter_name: String,
    pub load_filter_popup_open: bool,
    pub load_filter_selected: usize,
}

/// The total number of display lines the result entries occupy, as a
/// mathematical value.
pub open spec fn spec_total_display_lines(ls: Seq<Seq<char>>) -> int
    decreases ls.len(),
{
    if ls.len() == 0 {
        0
    } else {
        spec_total_display_lines(ls.drop_last()) + spec_line_count(ls.last())
    }
}

pub proof fn lemma_total_display_lines_nonneg(ls: Seq<Seq<char>>)
    ensures
        spec_total_display_lines(ls) >= 0,
    decreases ls.len(),
{
    if ls.len() > 0 {
        lemma_total_display_lines_nonneg(ls.drop_last());
        lemma_line_count_bounds(ls.last());
    }
}

/// Where the groups window sits after clamping: the selection pulled into
/// the window, and the window pulled back over the list.
pub open spec fn spec_clamp_scroll(sel: int, scr: int, len: int, rows: int) -> int {
    let adjusted = if sel < scr {
        sel
    } else if sel >= scr + rows {
        sel + 1 - rows
    } else {
        scr
    };
    let max_scroll = if len >= rows {
        len - rows
    } else {
        0
    };
    if adjusted <= max_scroll {
        adjusted
    } else {
        max_scroll
    }
}

/// The selection after moving one up.
pub open spec fn spec_sel_up(sel: int) -> int {
    if sel > 0 {
        sel - 1
    } else {
        0
    }
}

/// The selection after moving one down in a list of `len` groups.
pub open spec fn spec_sel_down(sel: int, len: int) -> int {
    if sel < len - 1 {
        sel + 1
    } else {
        len - 1
    }
}

/// How `start_search` changes the state and what request it yields: the
/// session resets to "searching" either way, and the request carries the
/// selected group and the filter form exactly when a group is selected.
pub open spec fn spec_start_search_step(a: App, b: App, r: Option<SearchRequest>) -> bool {
    &&& b == (App {
        searching: true,
        dots: 0,
        focus: Focus::Results,
        editing: false,
        lines: b.lines,
        results_scroll: 0,
        ..a
    })
    &&& b.lines@.len() == 0
    &&& if a.selected_group < a.groups@.len() {
        r matches Some(req) && req.region@ == a.region@ && req.profile@ == a.profile@
            && req.group@ == a.groups@[a.selected_group as int]@ && req.start@
            == a.filter_start@ && req.end@ == a.filter_end@ && req.pattern@ == a.filter_query@
            && req.tail == a.tail_mode
    } else {
        r is None
    }
}

/// The lowercase folding of a string, as computed by the standard library.
/// A function of the characters alone.
pub uninterp spec fn spec_lower(s: Seq<char>) -> Seq<char>;

/// Whether `n` occurs in `h` as a (not necessarily contiguous)
/// subsequence.
pub open spec fn spec_is_subseq(n: Seq<char>, h: Seq<char>) -> bool
    decreases n.len(), h.len(),
{
    if n.len() == 0 {
        true
    } else if h.len() == 0 {
        false
    } else if n[0] == h[0] {
        spec_is_subseq(n.drop_first(), h.drop_first())
    } else {
        spec_is_subseq(n, h.drop_first())
    }
}

/// Whether `g` fuzzily matches the pattern: the lowercased pattern is a
/// subsequence of the lowercased text.
pub open spec fn spec_fuzzy(g: Seq<char>, pat: Seq<char>) -> bool {
    spec_is_subseq(spec_lower(pat), spec_lower(g))
}

/// The groups that fuzzily match the pattern, in their original order.
pub open spec fn spec_filtered_groups(gs: Seq<String>, pat: Seq<char>) -> Seq<String>
    decreases gs.len(),
{
    if gs.len() == 0 {
        Seq::empty()
    } else {
        spec_filtered_groups(gs.drop_last(), pat) + if spec_fuzzy(gs.last()@, pat) {
            seq![gs.last()]
        } else {
            Seq::empty()
        }
    }
}

/// Whether `out` is what the group filter produces from the full list
/// `all`, the pattern, and whether the search is active.
pub open spec fn spec_filter_outcome(
    all: Seq<String>,
    pat: Seq<char>,
    active: bool,
    out: Seq<String>,
) -> bool {
    if !active || pat.len() == 0 {
        out == all
    } else {
        let f = spec_filtered_groups(all, pat);
        if f.len() == 0 {
            out.len() == 1 && out[0]@ == "(no matches)"@
        } else {
            out == f
        }
    }
}

/// The parameters of one search, handed to the worker that performs the
/// remote calls.
pub struct SearchRequest {
    pub region: String,
    pub profile: String,
    pub group: String,
    pub start: String,
    pub end: String,
    pub pattern: String,
    pub tail: bool,
}

/// Relies on `str::to_lowercase`: the result depends on the characters
/// alone, and an empty input folds to an empty output.
#[verifier::external_body]
fn to_lower(s: &str) -> (r: String)
    ensures
        r@ == spec_lower(s@),
        s@.len() == 0 ==> r@.len() == 0,
{
    s.to_lowercase()
}

/// Whether `n` is a subsequence of `h`, by greedy matching.
fn is_subsequence(n: &Vec<char>, h: &Vec<char>) -> (r: bool)
    ensures
        r == spec_is_subseq(n@, h@),
{
    let mut i: usize = 0;
    let mut j: usize = 0;
    proof {
        assert(n@.subrange(0, n@.len() as int) =~= n@);
        assert(h@.subrange(0, h@.len() as int) =~= h@);
    }
    while i < n.len() && j < h.len()
        invariant
            i <= n@.len(),
            j <= h@.len(),
            spec_is_subseq(n@, h@) == spec_is_subseq(
                n@.subrange(i as int, n@.len() as int),
                h@.subrange(j as int, h@.len() as int),
            ),
        decreases h@.len() - j,
    {
        let ghost ns = n@.subrange(i as int, n@.len() as int);
        let ghost hs = h@.subrange(j as int, h@.len() as int);
        proof {
            assert(ns[0] == n@[i as int]);
            assert(hs[0] == h@[j as int]);
            assert(ns.drop_first() =~= n@.subrange(i + 1, n@.len() as int));
            assert(hs.drop_first() =~= h@.subrange(j + 1, h@.len() as int));
        }
        if n[i] == h[j] {
            i = i + 1;
        }
        j = j + 1;
    }
    proof {
        let ns = n@.subrange(i as int, n@.len() as int);
        let hs = h@.subrange(j as int, h@.len() as int);
        if i == n@.len() {
            assert(ns.len() == 0);
        } else {
            assert(hs.len() == 0);
            assert(ns.len() > 0);
        }
    }
    i == n.len()
}

/// Clones a vector of strings, keeping every entry.
fn clone_string_vec(v: &Vec<String>) -> (r: Vec<String>)
    ensures
        r@ == v@,
{
    let mut r: Vec<String> = Vec::new();
    let mut i: usize = 0;
    while i < v.len()
        invariant
            i <= v@.len(),
            r@ =~= v@.subrange(0, i as int),
        decreases v@.len() - i,
    {
        r.push(v[i].clone());
        i = i + 1;
        proof {
            assert(r@ =~= v@.subrange(0, i as int));
        }
    }
    proof {
        assert(r@ =~= v@);
    }
    r
}

/// The total display lines clamped to the machine limit.
pub open spec fn spec_clamped_total(ls: Seq<Seq<char>>) -> int {
    if spec_total_display_lines(ls) <= usize::MAX {
        spec_total_display_lines(ls)
    } else {
        usize::MAX as int
    }
}

/// The lines joined by single newlines.
pub open spec fn spec_joined_lines(ls: Seq<Seq<char>>) -> Seq<char>
    decreases ls.len(),
{
    if ls.len() == 0 {
        Seq::empty()
    } else if ls.len() == 1 {
        ls[0]
    } else {
        spec_joined_lines(ls.drop_last()) + seq!['\n'] + ls.last()
    }
}

impl App {
    /// All result entries joined by newlines, for the clipboard.
    pub fn results_text(&self) -> (r: String)
        ensures
            r@ == spec_joined_lines(self.lines.deep_view()),
    {
        let ghost lv = self.lines.deep_view();
        let mut r = String::new();
        let mut i: usize = 0;
        while i < self.lines.len()
            invariant
                i <= self.lines@.len(),
                lv == self.lines.deep_view(),
                lv.len() == self.lines@.len(),
                forall|k: int| 0 <= k < lv.len() ==> lv[k] == #[trigger] self.lines@[k]@,
                r@ == spec_joined_lines(lv.subrange(0, i as int)),
            decreases self.lines@.len() - i,
        {
            if i > 0 {
                r.append("\n");
            }
            r.append(self.lines[i].as_str());
            i = i + 1;
            proof {
                reveal_strlit("\n");
                let cur = lv.subrange(0, i as int);
                assert(cur.drop_last() =~= lv.subrange(0, i - 1));
                assert(cur.last() == lv[i - 1]);
                if i == 1 {
                    assert(r@ =~= spec_joined_lines(cur));
                } else {
                    assert("\n"@ =~= seq!['\n']);
                    assert(r@ =~= spec_joined_lines(cur.drop_last()) + seq!['\n'] + cur.last());
                }
            }
        }
        proof {
            assert(lv.subrange(0, lv.len() as int) =~= lv);
        }
        r
    }

    /// The total number of display lines in the results pane, saturating at
    /// the machine limit.
    pub fn results_total_lines(&self) -> (r: usize)
        ensures
            r == spec_clamped_total(self.lines.deep_view()),
    {
        let ghost lv = self.lines.deep_view();
        let mut total: usize = 0;
        let mut i: usize = 0;
        while i < self.lines.len()
            invariant
                i <= self.lines@.len(),
                lv == self.lines.deep_view(),
                lv.len() == self.lines@.len(),
                forall|k: int| 0 <= k < lv.len() ==> lv[k] == #[trigger] self.lines@[k]@,
                total == if spec_total_display_lines(lv.subrange(0, i as int)) <= usize::MAX {
                    spec_total_display_lines(lv.subrange(0, i as int))
                } else {
                    usize::MAX as int
                },
            decreases self.lines@.len() - i,
        {
            let lc = line_count(self.lines[i].as_str());
            total = total.saturating_add(lc);
            i = i + 1;
            proof {
                let pre = lv.subrange(0, i - 1);
                let cur = lv.subrange(0, i as int);
                assert(cur.drop_last() =~= pre);
                assert(cur.last() == lv[i - 1]);
                lemma_total_display_lines_nonneg(pre);
                lemma_line_count_bounds(lv[i - 1]);
            }
        }
        proof {
            assert(lv.subrange(0, lv.len() as int) =~= lv);
        }
        total
    }

    /// Scrolls the results up one line.
    pub fn results_up(&mut self)
        ensures
            *final(self) == (App {
                results_scroll: if old(self).results_scroll > 0 {
                    (old(self).results_scroll - 1) as usize
                } else {
                    0
                },
                ..*old(self)
            }),
    {
        if self.results_scroll > 0 {
            self.results_scroll = self.results_scroll - 1;
        }
    }

    /// Scrolls the results down one line, never past the last.
    pub fn results_down(&mut self)
        ensures
            *final(self) == (App {
                results_scroll: if old(self).results_scroll + 1 < spec_clamped_total(
                    old(self).lines.deep_view(),
                ) {
                    (old(self).results_scroll + 1) as usize
                } else {
                    old(self).results_scroll
                },
                ..*old(self)
            }),
    {
        let total = self.results_total_lines();
        if self.results_scroll < usize::MAX && self.results_scroll + 1 < total {
            self.results_scroll = self.results_scroll + 1;
        }
    }

    /// How many group rows the groups pane shows.
    pub fn visible_group_rows(&self) -> (r: usize)
        ensures
            r == 4,
    {
        4
    }

    /// The character length of the active filter field; the search button
    /// has none.
    pub fn active_field_len(&self) -> (r: usize)
        ensures
            r == match self.filter_field {
                FilterField::Start => self.filter_start@.len(),
                FilterField::End => self.filter_end@.len(),
                FilterField::Query => self.filter_query@.len(),
                FilterField::Search => 0,
            },
    {
        match self.filter_field {
            FilterField::Start => self.filter_start.as_str().unicode_len(),
            FilterField::End => self.filter_end.as_str().unicode_len(),
            FilterField::Query => self.filter_query.as_str().unicode_len(),
            FilterField::Search => 0,
        }
    }

    /// Moves the active filter row one up, wrapping.
    pub fn filter_prev(&mut self)
        ensures
            *final(self) == (App {
                filter_field: match old(self).filter_field {
                    FilterField::Start => FilterField::Search,
                    FilterField::End => FilterField::Start,
                    FilterField::Query => FilterField::End,
                    FilterField::Search => FilterField::Query,
                },
                ..*old(self)
            }),
    {
        self.filter_field = match self.filter_field {
            FilterField::Start => FilterField::Search,
            FilterField::End => FilterField::Start,
            FilterField::Query => FilterField::End,
            FilterField::Search => FilterField::Query,
        };
    }

    /// Moves the active filter row one down, wrapping.
    pub fn filter_next(&mut self)
        ensures
            *final(self) == (App {
                filter_field: match old(self).filter_field {
                    FilterField::Start => FilterField::End,
                    FilterField::End => FilterField::Query,
                    FilterField::Query => FilterField::Search,
                    FilterField::Search => FilterField::Start,
                },
                ..*old(self)
            }),
    {
        self.filter_field = match self.filter_field {
            FilterField::Start => FilterField::End,
            FilterField::End => FilterField::Query,
            FilterField::Query => FilterField::Search,
            FilterField::Search => FilterField::Start,
        };
    }

    /// Applies a quick time preset: the given start, an empty end (meaning
    /// "now"), and focus on the query field, out of editing mode.
    pub fn apply_time_preset(&mut self, start: &str)
        ensures
            final(self).filter_start@ == start@,
            final(self).filter_end@.len() == 0,
            *final(self) == (App {
                filter_start: final(self).filter_start,
                filter_end: final(self).filter_end,
                filter_field: FilterField::Query,
                editing: false,
                ..*old(self)
            }),
    {
        self.filter_start = String::from_str(start);
        self.filter_end = String::new();
        self.filter_field = FilterField::Query;
        self.editing = false;
    }

    /// Records a transient status message and when it was set.
    pub fn set_status(&mut self, msg: String, now_ms: i64)
        ensures
            *final(self) == (App {
                status_message: Some(msg),
                status_set_at: Some(now_ms),
                ..*old(self)
            }),
    {
        self.status_message = Some(msg);
        self.status_set_at = Some(now_ms);
    }

    /// Clears the status message once it has been shown for two seconds.
    pub fn maybe_clear_status(&mut self, now_ms: i64)
        ensures
            *final(self) == if old(self).status_set_at matches Some(t) && t + 2000 <= now_ms {
                (App { status_message: None, status_set_at: None, ..*old(self) })
            } else {
                *old(self)
            },
    {
        if let Some(set_at) = self.status_set_at {
            let elapsed = match set_at.checked_add(2000) {
                Some(threshold) => now_ms >= threshold,
                None => false,
            };
            if elapsed {
                self.status_message = None;
                self.status_set_at = None;
            }
        }
    }

    /// Keeps the selected group within the visible window and the window
    /// within the list.
    #[verifier::rlimit(100)]
    pub fn clamp_groups_scroll(&mut self, visible_rows: usize)
        requires
            visible_rows >= 1,
        ensures
            *final(self) == if old(self).groups@.len() == 0 {
                (App { groups_scroll: 0, selected_group: 0, ..*old(self) })
            } else {
                (App {
                    groups_scroll: spec_clamp_scroll(
                        old(self).selected_group as int,
                        old(self).groups_scroll as int,
                        old(self).groups@.len() as int,
                        visible_rows as int,
                    ) as usize,
                    ..*old(self)
                })
            },
    {
        if self.groups.len() == 0 {
            self.groups_scroll = 0;
            self.selected_group = 0;
            return;
        }
        if self.selected_group < self.groups_scroll {
            self.groups_scroll = self.selected_group;
        } else if self.selected_group - self.groups_scroll >= visible_rows {
            self.groups_scroll = self.selected_group - (visible_rows - 1);
        }
        let max_scroll = if self.groups.len() >= visible_rows {
            self.groups.len() - visible_rows
        } else {
            0
        };
        if self.groups_scroll > max_scroll {
            self.groups_scroll = max_scroll;
        }
    }

    /// Moves the group selection one up.
    pub fn groups_up(&mut self)
        ensures
            *final(self) == if old(self).groups@.len() == 0 {
                *old(self)
            } else {
                (App {
                    selected_group: spec_sel_up(old(self).selected_group as int) as usize,
                    groups_scroll: spec_clamp_scroll(
                        spec_sel_up(old(self).selected_group as int),
                        old(self).groups_scroll as int,
                        old(self).groups@.len() as int,
                        4,
                    ) as usize,
                    ..*old(self)
                })
            },
    {
        if self.groups.len() > 0 {
            if self.selected_group > 0 {
                self.selected_group = self.selected_group - 1;
            }
            let rows = self.visible_group_rows();
            self.clamp_groups_scroll(rows);
        }
    }

    /// Moves the group selection one down, never past the last group.
    pub fn groups_down(&mut self)
        ensures
            *final(self) == if old(self).groups@.len() == 0 {
                *old(self)
            } else {
                (App {
                    selected_group: spec_sel_down(
                        old(self).selected_group as int,
                        old(self).groups@.len() as int,
                    ) as usize,
                    groups_scroll: spec_clamp_scroll(
                        spec_sel_down(
                            old(self).selected_group as int,
                            old(self).groups@.len() as int,
                        ),
                        old(self).groups_scroll as int,
                        old(self).groups@.len() as int,
                        4,
                    ) as usize,
                    ..*old(self)
                })
            },
    {
        if self.groups.len() > 0 {
            if self.selected_group < self.groups.len() - 1 {
                self.selected_group = self.selected_group + 1;
            } else {
                self.selected_group = self.groups.len() - 1;
            }
            let rows = self.visible_group_rows();
            self.clamp_groups_scroll(rows);
        }
    }

    /// Whether `haystack` fuzzily matches `needle`: case-insensitive, with
    /// the needle's characters found in order but not necessarily adjacent.
    pub fn fuzzy_match(haystack: &str, needle: &str) -> (r: bool)
        ensures
            r == spec_fuzzy(haystack@, needle@),
    {
        let n = to_lower(needle);
        if n.as_str().is_empty() {
            return true;
        }
        let h = to_lower(haystack);
        let hv = crate::text::str_chars(h.as_str());
        let nv = crate::text::str_chars(n.as_str());
        is_subsequence(&nv, &hv)
    }

    /// Applies the group search: with no active search the full list comes
    /// back; otherwise the fuzzily matching groups, or one placeholder entry
    /// when nothing matches. Selection and scroll reset either way.
    pub fn apply_group_search_filter(&mut self)
        ensures
            *final(self) == (App {
                groups: final(self).groups,
                selected_group: 0,
                groups_scroll: 0,
                ..*old(self)
            }),
            spec_filter_outcome(
                old(self).all_groups@,
                old(self).group_search_input@,
                old(self).group_search_active,
                final(self).groups@,
            ),
    {
        if !self.group_search_active || self.group_search_input.as_str().is_empty() {
            self.groups = clone_string_vec(&self.all_groups);
            self.selected_group = 0;
            self.groups_scroll = 0;
            return;
        }
        let ghost gv = self.all_groups@;
        let ghost pat = self.group_search_input@;
        let mut filtered: Vec<String> = Vec::new();
        let mut i: usize = 0;
        while i < self.all_groups.len()
            invariant
                i <= self.all_groups@.len(),
                gv == self.all_groups@,
                pat == self.group_search_input@,
                filtered@ =~= spec_filtered_groups(gv.subrange(0, i as int), pat),
            decreases self.all_groups@.len() - i,
        {
            let ghost pre = gv.subrange(0, i as int);
            let ghost cur = gv.subrange(0, i + 1);
            proof {
                assert(cur.drop_last() =~= pre);
                assert(cur.last() == gv[i as int]);
            }
            if App::fuzzy_match(self.all_groups[i].as_str(), self.group_search_input.as_str()) {
                filtered.push(self.all_groups[i].clone());
            }
            i = i + 1;
            proof {
                assert(filtered@ =~= spec_filtered_groups(cur, pat));
            }
        }
        proof {
            assert(gv.subrange(0, gv.len() as int) =~= gv);
        }
        if filtered.len() == 0 {
            filtered.push(String::from_str("(no matches)"));
        }
        self.groups = filtered;
        self.selected_group = 0;
        self.groups_scroll = 0;
    }

    /// Begins a search: marks the session as searching, moves focus to the
    /// results, clears the displayed lines, and hands back the request the
    /// worker should run - or nothing when no group is selected (the state
    /// still resets either way).
    pub fn start_search(&mut self) -> (r: Option<SearchRequest>)
        ensures
            spec_start_search_step(*old(self), *final(self), r),
    {
        self.searching = true;
        self.dots = 0;
        self.focus = Focus::Results;
        self.editing = false;
        self.lines = Vec::new();
        self.results_scroll = 0;
        if self.selected_group >= self.groups.len() {
            return None;
        }
        let group = self.groups[self.selected_group].clone();
        Some(
            SearchRequest {
                region: self.region.clone(),
                profile: self.profile.clone(),
                group,
                start: self.filter_start.clone(),
                end: self.filter_end.clone(),
                pattern: self.filter_query.clone(),
                tail: self.tail_mode,
            },
        )
    }

    /// Drains one value from the worker's result stream into the display.
    /// The terminal marker ends the "searching" state and moves focus to the
    /// results; a text line is appended, and when the buffer tops its cap
    /// the oldest five hundred entries are dropped. The scroll offset is
    /// clamped first, so eviction leaves no dangling offset.
    #[verifier::rlimit(100)]
    pub fn ingest(&mut self, msg: crate::session::ResultLine)
        ensures
            ({
                let total = spec_clamped_total(old(self).lines.deep_view());
                let clamped: usize = if old(self).results_scroll + 1 <= total {
                    old(self).results_scroll
                } else if total > 0 {
                    (total - 1) as usize
                } else {
                    0
                };
                match msg {
                    crate::session::ResultLine::Done => *final(self) == (App {
                        searching: false,
                        focus: Focus::Results,
                        results_scroll: clamped,
                        ..*old(self)
                    }),
                    crate::session::ResultLine::Text(s) => {
                        &&& *final(self) == (App {
                            lines: final(self).lines,
                            results_scroll: clamped,
                            ..*old(self)
                        })
                        &&& ({
                            let pushed = old(self).lines.deep_view().push(s@);
                            if old(self).lines.deep_view().len() + 1 > 2000 {
                                final(self).lines.deep_view() == pushed.subrange(
                                    500,
                                    pushed.len() as int,
                                )
                            } else {
                                final(self).lines.deep_view() == pushed
                            }
                        })
                    },
                }
            }),
    {
        let total = self.results_total_lines();
        let limit = if total > 0 {
            total - 1
        } else {
            0
        };
        if self.results_scroll > limit {
            self.results_scroll = limit;
        }
        match msg {
            crate::session::ResultLine::Done => {
                self.searching = false;
                self.focus = Focus::Results;
            },
            crate::session::ResultLine::Text(s) => {
                let ghost pushed = self.lines.deep_view().push(s@);
                self.lines.push(s);
                proof {
                    assert(self.lines.deep_view() =~= pushed);
                }
                if self.lines.len() > 2000 {
                    let ghost before = self.lines.deep_view();
                    let tail = self.lines.split_off(500);
                    self.lines = tail;
                    proof {
                        assert(self.lines.deep_view() =~= before.subrange(
                            500,
                            before.len() as int,
                        ));
                    }
                }
            },
        }
    }

    /// Advances the animated "searching" dots.
    pub fn advance_dots(&mut self)
        ensures
            *final(self) == (App { dots: ((old(self).dots + 1) % 7) as usize, ..*old(self) }),
    {
        self.dots = (self.dots % 7) + 1;
        if self.dots == 7 {
            self.dots = 0;
        }
        proof {
            let d = old(self).dots as int;
            let r = self.dots as int;
            assert(r == if (d % 7) + 1 == 7 {
                0int
            } else {
                (d % 7) + 1
            });
            assert(r == (d + 1) % 7) by (nonlinear_arith)
                requires
                    d >= 0,
                    r == if (d % 7) + 1 == 7 {
                        0int
                    } else {
                        (d % 7) + 1
                    },
            ;
        }
    }
}

} // verus!
