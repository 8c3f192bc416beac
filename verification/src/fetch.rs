use vstd::prelude::*;

use crate::format::format_log_event;
use crate::format::spec_format_event;
use crate::format::RawEvent;

verus! {

// ---------------------------------------------------------------------------
// Log fetcher: paginated retrieval over a fixed window.
//
// The remote store answers one page at a time: a list of events and an
// opaque continuation cursor. The fetcher formats every event in order,
// tracks the maximum timestamp seen, and stops when the store reports no
// further page or hands back the same cursor twice in a row (the guard
// against a store that never terminates its pagination).
// ---------------------------------------------------------------------------

/// One page as returned by the remote store.
pub struct Page {
    pub events: Vec<RawEvent>,
    pub next_cursor: Option<String>,
}

/// Whether two pagination cursors are the same token.
pub open spec fn spec_cursor_eq(a: Option<Seq<char>>, b: Option<Seq<char>>) -> bool {
    match (a, b) {
        (Option::None, Option::None) => true,
        (Option::Some(x), Option::Some(y)) => x == y,
        _ => false,
    }
}

/// The larger of two optional timestamps; `None` counts as absent, not as a
/// value.
pub open spec fn spec_max_opt(a: Option<i64>, b: Option<i64>) -> Option<i64> {
    match (a, b) {
        (Option::None, x) => x,
        (x, Option::None) => x,
        (Option::Some(x), Option::Some(y)) => Option::Some(
            if x >= y {
                x
            } else {
                y
            },
        ),
    }
}

/// The maximum timestamp among a sequence of events, if any.
pub open spec fn spec_events_max(evs: Seq<RawEvent>) -> Option<i64>
    decreases evs.len(),
{
    if evs.len() == 0 {
        Option::None
    } else {
        spec_max_opt(spec_events_max(evs.drop_last()), Option::Some(evs.last().timestamp_ms))
    }
}

/// The running state of one paginated fetch.
pub struct FetchState {
    /// The formatted display lines, in the order the events arrived.
    pub lines: Vec<String>,
    /// The maximum event timestamp observed so far.
    pub max_ts: Option<i64>,
    /// The cursor the last page was requested with (`None` for the first).
    pub cursor: Option<String>,
    /// Whether pagination has terminated.
    pub done: bool,
}

impl FetchState {
    /// A fetch that has requested nothing yet.
    pub fn new() -> (s: Self)
        ensures
            s.lines@.len() == 0,
            s.max_ts is None,
            s.cursor is None,
            !s.done,
    {
        FetchState { lines: Vec::new(), max_ts: None, cursor: None, done: false }
    }

    /// Absorbs one page: formats its events in order, raises the maximum
    /// timestamp, and decides whether pagination terminates. Pagination
    /// terminates exactly when the store reports no next cursor or repeats
    /// the cursor of the page just absorbed.
    pub fn absorb_page(&mut self, page: Page)
        requires
            !old(self).done,
        ensures
            final(self).lines@.len() == old(self).lines@.len() + page.events@.len(),
            forall|i: int| 0 <= i < old(self).lines@.len()
                ==> final(self).lines@[i] == old(self).lines@[i],
            forall|j: int| 0 <= j < page.events@.len()
                ==> #[trigger] final(self).lines@[old(self).lines@.len() + j]@
                    == spec_format_event(
                    page.events@[j].timestamp_ms,
                    page.events@[j].message@,
                ),
            final(self).max_ts == spec_max_opt(old(self).max_ts, spec_events_max(page.events@)),
            final(self).done == (page.next_cursor is None || spec_cursor_eq(
                page.next_cursor.deep_view(),
                old(self).cursor.deep_view(),
            )),
            !final(self).done ==> final(self).cursor.deep_view() == page.next_cursor.deep_view(),
            final(self).done ==> final(self).cursor == old(self).cursor,
    {
        let ghost evs = page.events@;
        let ghost n0 = self.lines@.len() as int;
        let mut j: usize = 0;
        while j < page.events.len()
            invariant
                j <= evs.len(),
                page.events@ == evs,
                self.lines@.len() == n0 + j,
                n0 == old(self).lines@.len(),
                self.max_ts == spec_max_opt(old(self).max_ts, spec_events_max(
                    evs.subrange(0, j as int),
                )),
                self.cursor == old(self).cursor,
                self.done == old(self).done,
                forall|i: int| 0 <= i < n0 ==> self.lines@[i] == old(self).lines@[i],
                forall|k: int| 0 <= k < j ==> #[trigger] self.lines@[n0 + k]@
                    == spec_format_event(evs[k].timestamp_ms, evs[k].message@),
            decreases evs.len() - j,
        {
            let line = format_log_event(&page.events[j]);
            self.lines.push(line);
            let ts = page.events[j].timestamp_ms;
            let raise = match self.max_ts {
                Option::None => true,
                Option::Some(cur) => ts > cur,
            };
            if raise {
                self.max_ts = Some(ts);
            }
            j = j + 1;
            proof {
                let pre = evs.subrange(0, j - 1);
                let cur = evs.subrange(0, j as int);
                assert(cur.drop_last() =~= pre);
                assert(cur.last() == evs[j - 1]);
            }
        }
        proof {
            assert(evs.subrange(0, evs.len() as int) =~= evs);
        }
        let stop = match &page.next_cursor {
            Option::None => true,
            Option::Some(tok) => match &self.cursor {
                Option::None => false,
                Option::Some(prev) => tok.eq(prev),
            },
        };
        if stop {
            self.done = true;
        } else {
            self.cursor = page.next_cursor;
        }
    }
}

// ---------------------------------------------------------------------------
// Listing groups: the per-page decision.
// ---------------------------------------------------------------------------

/// The names present in a page of optionally-named entries, in order.
pub open spec fn spec_named(s: Seq<Option<Seq<char>>>) -> Seq<Seq<char>>
    decreases s.len(),
{
    if s.len() == 0 {
        Seq::empty()
    } else {
        spec_named(s.drop_last()) + match s.last() {
            Option::Some(x) => seq![x],
            Option::None => Seq::empty(),
        }
    }
}

/// Keeps the names a group-listing page actually carries, in page order.
pub fn group_names_of_page(page: Vec<Option<String>>) -> (r: Vec<String>)
    ensures
        r.deep_view() == spec_named(page.deep_view()),
{
    let ghost pv = page.deep_view();
    let mut r: Vec<String> = Vec::new();
    let mut i: usize = 0;
    while i < page.len()
        invariant
            i <= page@.len(),
            pv == page.deep_view(),
            pv.len() == page@.len(),
            forall|k: int| 0 <= k < page@.len() ==> pv[k] == #[trigger] page@[k].deep_view(),
            r.deep_view() == spec_named(pv.subrange(0, i as int)),
        decreases page@.len() - i,
    {
        let ghost pre = pv.subrange(0, i as int);
        let ghost cur = pv.subrange(0, i + 1);
        proof {
            assert(cur.drop_last() =~= pre);
            assert(cur.last() == pv[i as int]);
        }
        match &page[i] {
            Option::Some(name) => {
                let ghost before = r.deep_view();
                r.push(name.clone());
                proof {
                    assert(r.deep_view() =~= before + seq![name@]);
                    assert(r.deep_view() =~= spec_named(cur));
                }
            },
            Option::None => {
                proof {
                    assert(spec_named(cur) =~= spec_named(pre));
                }
            },
        }
        i = i + 1;
    }
    proof {
        assert(pv.subrange(0, pv.len() as int) =~= pv);
    }
    r
}

} // verus!
