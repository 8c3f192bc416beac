use vstd::prelude::*;

use crate::fetch::spec_max_opt;
use crate::timespec::rfc3339_of_ms;
use crate::timespec::spec_rfc3339_of;

verus! {

// ---------------------------------------------------------------------------
// Tail state: the advancing time window of a polling session.
//
// While tailing, each poll fetches events newer than the newest event seen
// so far. The state is that high-water mark; it only ever rises, whatever a
// poll returns, so no window ever moves backwards.
// ---------------------------------------------------------------------------

/// Ordering on optional timestamps: an absent mark is below everything.
pub open spec fn spec_opt_le(a: Option<i64>, b: Option<i64>) -> bool {
    match (a, b) {
        (Option::None, _) => true,
        (Option::Some(_), Option::None) => false,
        (Option::Some(x), Option::Some(y)) => x <= y,
    }
}

/// The high-water mark after a sequence of polls, each contributing the
/// maximum timestamp it observed (or nothing).
pub open spec fn spec_last_seen_after(init: Option<i64>, polls: Seq<Option<i64>>) -> Option<i64>
    decreases polls.len(),
{
    if polls.len() == 0 {
        init
    } else {
        spec_max_opt(spec_last_seen_after(init, polls.drop_last()), polls.last())
    }
}

pub proof fn lemma_opt_le_max(a: Option<i64>, b: Option<i64>)
    ensures
        spec_opt_le(a, spec_max_opt(a, b)),
        spec_opt_le(b, spec_max_opt(a, b)),
{
}

pub proof fn lemma_opt_le_trans(a: Option<i64>, b: Option<i64>, c: Option<i64>)
    requires
        spec_opt_le(a, b),
        spec_opt_le(b, c),
    ensures
        spec_opt_le(a, c),
{
}

/// Across any sequence of polls, the high-water mark never decreases:
/// after more polls it is at least what it was after fewer, whatever each
/// poll returned (nothing, or timestamps out of order).
pub proof fn lemma_last_seen_monotonic(init: Option<i64>, polls: Seq<Option<i64>>, i: int, j: int)
    requires
        0 <= i <= j <= polls.len(),
    ensures
        spec_opt_le(
            spec_last_seen_after(init, polls.subrange(0, i)),
            spec_last_seen_after(init, polls.subrange(0, j)),
        ),
    decreases j - i,
{
    if i == j {
    } else {
        lemma_last_seen_monotonic(init, polls, i, j - 1);
        let pre = polls.subrange(0, j - 1);
        let cur = polls.subrange(0, j);
        assert(cur.drop_last() =~= pre);
        assert(cur.last() == polls[j - 1]);
        lemma_opt_le_max(spec_last_seen_after(init, pre), polls[j - 1]);
        lemma_opt_le_trans(
            spec_last_seen_after(init, polls.subrange(0, i)),
            spec_last_seen_after(init, pre),
            spec_last_seen_after(init, cur),
        );
    }
}

/// The high-water mark of one tail session.
pub struct TailState {
    pub last_seen_ts: Option<i64>,
}

impl TailState {
    /// A tail that has seen nothing yet.
    pub fn new() -> (s: Self)
        ensures
            s.last_seen_ts is None,
    {
        TailState { last_seen_ts: None }
    }

    /// Raises the high-water mark to the maximum timestamp a poll observed.
    /// The mark never decreases, whatever the poll returned.
    pub fn observe(&mut self, poll_max: Option<i64>)
        ensures
            final(self).last_seen_ts == spec_max_opt(old(self).last_seen_ts, poll_max),
            spec_opt_le(old(self).last_seen_ts, final(self).last_seen_ts),
    {
        let raise = match (&self.last_seen_ts, &poll_max) {
            (_, Option::None) => false,
            (Option::None, Option::Some(_)) => true,
            (Option::Some(cur), Option::Some(new)) => *new > *cur,
        };
        if raise {
            self.last_seen_ts = poll_max;
        }
    }

    /// The start specification of the next poll's window: one millisecond
    /// past the high-water mark, rendered as an RFC 3339 instant, or the
    /// session's original start when there is no mark (or no rendering).
    pub fn next_window_start(&self, original_start: &str) -> (r: String)
        ensures
            ({
                match self.last_seen_ts {
                    Option::Some(ts) => {
                        if ts < i64::MAX && spec_rfc3339_of((ts + 1) as i64) is Some {
                            r@ == spec_rfc3339_of((ts + 1) as i64).unwrap()
                        } else {
                            r@ == original_start@
                        }
                    },
                    Option::None => r@ == original_start@,
                }
            }),
    {
        match &self.last_seen_ts {
            Option::Some(ts) => {
                if *ts < i64::MAX {
                    match rfc3339_of_ms(*ts + 1) {
                        Option::Some(s) => s,
                        Option::None => String::from_str(original_start),
                    }
                } else {
                    String::from_str(original_start)
                }
            },
            Option::None => String::from_str(original_start),
        }
    }
}

} // verus!
