use vstd::prelude::*;

use crate::fetch::spec_max_opt;
use crate::tail::spec_opt_le;
use crate::tail::TailState;
use crate::text::spec_udec;
use crate::text::usize_to_string;

verus! {

// ---------------------------------------------------------------------------
// Search session coordinator.
//
// One session is one logical query: a single historical fetch, then -
// when tailing - a sequence of polls until cancellation. The worker that
// performs the remote calls reports each outcome here; this state machine
// decides what appears on the result stream and in what order: a results
// header, the lines, inline error lines, and one terminal marker last of
// all. The stream's consumer recognizes the terminal marker as "this
// session has no more output".
// ---------------------------------------------------------------------------

/// One value on the result stream: a display line, or the terminal marker.
#[derive(Debug, PartialEq, Eq)]
pub enum ResultLine {
    Text(String),
    Done,
}

/// Where a session stands.
#[derive(Copy, Clone, Debug, PartialEq, Eq, Structural)]
pub enum SessionPhase {
    /// The single historical fetch has not completed yet.
    Initial,
    /// The historical fetch completed and the session is polling for new
    /// events.
    Tailing,
    /// The terminal marker has been emitted; nothing more follows.
    Finished,
}

/// What one remote fetch came back with: the formatted lines and the
/// maximum event timestamp, or the failure text.
pub enum FetchOutcome {
    Success { lines: Vec<String>, max_ts: Option<i64> },
    Failure { message: String },
}

/// The state of one search session.
pub struct Session {
    /// Whether the session keeps polling after the historical fetch.
    pub tail: bool,
    pub phase: SessionPhase,
    pub tail_state: TailState,
}

/// The immediate feedback line emitted when a search on `group` starts.
pub fn searching_notice(group: &str) -> (r: String)
    ensures
        r@ == "Searching "@ + group@ + " ..."@,
{
    let mut r = String::from_str("Searching ");
    r.append(group);
    r.append(" ...");
    r
}

impl Session {
    /// A session that has not fetched anything yet.
    pub fn new(tail: bool) -> (s: Self)
        ensures
            s.tail == tail,
            s.phase == SessionPhase::Initial,
            s.tail_state.last_seen_ts is None,
    {
        Session { tail, phase: SessionPhase::Initial, tail_state: TailState::new() }
    }

    /// Absorbs the outcome of the single historical fetch. On success the
    /// stream gets one results-count header and then every line, in order;
    /// on failure one error line. A session that does not tail then emits
    /// the terminal marker and is finished; a tailing session moves on to
    /// polling.
    pub fn on_initial_result(&mut self, outcome: FetchOutcome) -> (out: Vec<ResultLine>)
        requires
            old(self).phase == SessionPhase::Initial,
        ensures
            final(self).tail == old(self).tail,
            final(self).phase == if old(self).tail {
                SessionPhase::Tailing
            } else {
                SessionPhase::Finished
            },
            match outcome {
                FetchOutcome::Success { lines, max_ts } => {
                    &&& final(self).tail_state.last_seen_ts == spec_max_opt(
                        old(self).tail_state.last_seen_ts,
                        max_ts,
                    )
                    &&& out@.len() == 1 + lines@.len() + if old(self).tail {
                        0int
                    } else {
                        1int
                    }
                    &&& out@[0] matches ResultLine::Text(h) && h@ == "--- "@ + spec_udec(
                        lines@.len() as int,
                    ) + " results ---"@
                    &&& forall|j: int| 0 <= j < lines@.len() ==> ((#[trigger] out@[1 + j])
                        matches ResultLine::Text(s) && s@ == lines@[j]@)
                    &&& !old(self).tail ==> out@.last() == ResultLine::Done
                },
                FetchOutcome::Failure { message } => {
                    &&& final(self).tail_state == old(self).tail_state
                    &&& out@.len() == 1 + if old(self).tail {
                        0int
                    } else {
                        1int
                    }
                    &&& out@[0] matches ResultLine::Text(s) && s@ == "[search error] "@
                        + message@
                    &&& !old(self).tail ==> out@.last() == ResultLine::Done
                },
            },
    {
        let mut out: Vec<ResultLine> = Vec::new();
        match outcome {
            FetchOutcome::Success { lines, max_ts } => {
                let mut header = String::from_str("--- ");
                header.append(usize_to_string(lines.len()).as_str());
                header.append(" results ---");
                out.push(ResultLine::Text(header));
                let ghost lv = lines@;
                let mut lines = lines;
                let mut j: usize = 0;
                while j < lines.len()
                    invariant
                        j <= lv.len(),
                        lines@ == lv,
                        out@.len() == 1 + j,
                        out@[0] matches ResultLine::Text(h) && h@ == "--- "@ + spec_udec(
                            lv.len() as int,
                        ) + " results ---"@,
                        forall|k: int| 0 <= k < j ==> ((#[trigger] out@[1 + k])
                            matches ResultLine::Text(s) && s@ == lv[k]@),
                    decreases lv.len() - j,
                {
                    let line = lines[j].clone();
                    proof {
                        assert(line@ == lv[j as int]@);
                    }
                    out.push(ResultLine::Text(line));
                    j = j + 1;
                }
                self.tail_state.observe(max_ts);
            },
            FetchOutcome::Failure { message } => {
                let mut s = String::from_str("[search error] ");
                s.append(message.as_str());
                out.push(ResultLine::Text(s));
            },
        }
        if self.tail {
            self.phase = SessionPhase::Tailing;
        } else {
            self.phase = SessionPhase::Finished;
            out.push(ResultLine::Done);
        }
        out
    }

    /// Aborts a session whose client could not even be set up: the failure
    /// is reported and the terminal marker follows at once, tailing or not.
    pub fn on_fatal_error(&mut self, message: String) -> (out: Vec<ResultLine>)
        requires
            old(self).phase == SessionPhase::Initial,
        ensures
            final(self).tail == old(self).tail,
            final(self).tail_state == old(self).tail_state,
            final(self).phase == SessionPhase::Finished,
            out@.len() == 2,
            out@[0] matches ResultLine::Text(s) && s@ == "[search error] "@ + message@,
            out@[1] == ResultLine::Done,
    {
        self.phase = SessionPhase::Finished;
        let mut s = String::from_str("[search error] ");
        s.append(message.as_str());
        let mut out: Vec<ResultLine> = Vec::new();
        out.push(ResultLine::Text(s));
        out.push(ResultLine::Done);
        out
    }

    /// Absorbs the outcome of one tail poll. A successful poll appends its
    /// lines (no header again) and raises the high-water mark, never
    /// lowering it; a failed poll emits one error line and changes nothing,
    /// so a single failed poll does not end the session.
    pub fn on_poll_result(&mut self, outcome: FetchOutcome) -> (out: Vec<ResultLine>)
        requires
            old(self).phase == SessionPhase::Tailing,
        ensures
            final(self).tail == old(self).tail,
            final(self).phase == SessionPhase::Tailing,
            spec_opt_le(old(self).tail_state.last_seen_ts, final(self).tail_state.last_seen_ts),
            match outcome {
                FetchOutcome::Success { lines, max_ts } => {
                    &&& final(self).tail_state.last_seen_ts == spec_max_opt(
                        old(self).tail_state.last_seen_ts,
                        max_ts,
                    )
                    &&& out@.len() == lines@.len()
                    &&& forall|j: int| 0 <= j < lines@.len() ==> ((#[trigger] out@[j])
                        matches ResultLine::Text(s) && s@ == lines@[j]@)
                },
                FetchOutcome::Failure { message } => {
                    &&& final(self).tail_state == old(self).tail_state
                    &&& out@.len() == 1
                    &&& out@[0] matches ResultLine::Text(s) && s@ == "[tail error] "@ + message@
                },
            },
    {
        let mut out: Vec<ResultLine> = Vec::new();
        match outcome {
            FetchOutcome::Success { lines, max_ts } => {
                let ghost lv = lines@;
                let mut lines = lines;
                let mut j: usize = 0;
                while j < lines.len()
                    invariant
                        j <= lv.len(),
                        lines@ == lv,
                        out@.len() == j,
                        forall|k: int| 0 <= k < j ==> ((#[trigger] out@[k])
                            matches ResultLine::Text(s) && s@ == lv[k]@),
                    decreases lv.len() - j,
                {
                    let line = lines[j].clone();
                    proof {
                        assert(line@ == lv[j as int]@);
                    }
                    out.push(ResultLine::Text(line));
                    j = j + 1;
                }
                self.tail_state.observe(max_ts);
            },
            FetchOutcome::Failure { message } => {
                let mut s = String::from_str("[tail error] ");
                s.append(message.as_str());
                out.push(ResultLine::Text(s));
            },
        }
        out
    }

    /// Ends a tailing session once the cancellation flag has been observed:
    /// the terminal marker is emitted and nothing more follows.
    pub fn on_cancelled(&mut self) -> (out: Vec<ResultLine>)
        requires
            old(self).phase == SessionPhase::Tailing,
        ensures
            final(self).tail == old(self).tail,
            final(self).tail_state == old(self).tail_state,
            final(self).phase == SessionPhase::Finished,
            out@.len() == 1,
            out@[0] == ResultLine::Done,
    {
        self.phase = SessionPhase::Finished;
        let mut out: Vec<ResultLine> = Vec::new();
        out.push(ResultLine::Done);
        out
    }
}

} // verus!
