use vstd::prelude::*;

use crate::text::chars_to_string;
use crate::text::copy_range;
use crate::text::find_char;
use crate::text::i64_to_string;
use crate::text::spec_dec;
use crate::text::spec_trim_back;
use crate::text::spec_trim_front;
use crate::text::str_chars;
use crate::text::trim_back_chars;
use crate::text::trim_front_chars;
use crate::timespec::rfc3339_of_ms;
use crate::timespec::spec_rfc3339_of;

verus! {

// ---------------------------------------------------------------------------
// Event formatter.
//
// One raw remote event (timestamp plus message text) becomes one display
// string: the timestamp rendered as an RFC 3339 instant (or as the raw
// number when out of range), then the message with trailing whitespace
// removed. When the message embeds a JSON payload - a `{` whose suffix
// parses as JSON - the payload is pretty-printed on the following lines;
// when the suffix does not parse, the message is shown untouched.
// ---------------------------------------------------------------------------

/// A raw event as delivered by the remote store.
#[derive(Clone, Debug)]
pub struct RawEvent {
    pub timestamp_ms: i64,
    pub message: String,
}

/// The pretty-printed form of a JSON text, if it parses as JSON. A function
/// of the characters alone.
pub uninterp spec fn spec_pretty_json(s: Seq<char>) -> Option<Seq<char>>;

/// Relies on serde_json's `from_str::<Value>` and `to_string_pretty`: both
/// depend on the input characters alone (objects keep their keys in a sorted
/// map), and `to_string_pretty` succeeds on every `Value`.
#[verifier::external_body]
fn pretty_json(s: &str) -> (r: Option<String>)
    ensures
        r.deep_view() == spec_pretty_json(s@),
{
    match serde_json::from_str::<serde_json::Value>(s) {
        Ok(v) => serde_json::to_string_pretty(&v).ok(),
        Err(_) => None,
    }
}

/// What `pretty_json_if_possible` returns: the pretty-printed payload when
/// the front-trimmed text starts like a JSON object or array and parses.
pub open spec fn spec_pretty_json_if_possible(s: Seq<char>) -> Option<Seq<char>> {
    let t = spec_trim_front(s);
    if t.len() > 0 && (t[0] == '{' || t[0] == '[') {
        spec_pretty_json(t)
    } else {
        None
    }
}

/// Pretty-prints `s` when it is a JSON object or array, and refuses
/// everything else (including bare JSON scalars).
pub fn pretty_json_if_possible(s: &str) -> (r: Option<String>)
    ensures
        r.deep_view() == spec_pretty_json_if_possible(s@),
{
    let chars = str_chars(s);
    let t = trim_front_chars(&chars);
    if t.len() == 0 {
        return None;
    }
    if t[0] != '{' && t[0] != '[' {
        return None;
    }
    let t_str = chars_to_string(&t);
    pretty_json(t_str.as_str())
}

/// The timestamp prefix of a formatted event: the RFC 3339 rendering, or the
/// raw number when the instant has none.
pub open spec fn spec_ts_prefix(ms: i64) -> Seq<char> {
    match spec_rfc3339_of(ms) {
        Some(s) => s,
        None => spec_dec(ms as int),
    }
}

/// What formatting an event yields. With an embedded JSON payload the result
/// has the payload pretty-printed after a line break; otherwise it is the
/// timestamp, a space, and the trimmed message.
pub open spec fn spec_format_event(ms: i64, msg: Seq<char>) -> Seq<char> {
    let m = spec_trim_back(msg);
    let b = crate::text::spec_find(m, '{');
    if b < m.len() {
        match spec_pretty_json(m.subrange(b, m.len() as int)) {
            Some(p) => spec_ts_prefix(ms) + m.subrange(0, b) + seq!['\n'] + p,
            None => spec_ts_prefix(ms) + seq![' '] + m,
        }
    } else {
        spec_ts_prefix(ms) + seq![' '] + m
    }
}

/// Renders one raw event as a display string. Never panics, whatever the
/// timestamp or message.
pub fn format_log_event(ev: &RawEvent) -> (r: String)
    ensures
        r@ == spec_format_event(ev.timestamp_ms, ev.message@),
{
    let ts_str: String = match rfc3339_of_ms(ev.timestamp_ms) {
        Some(s) => s,
        None => i64_to_string(ev.timestamp_ms),
    };
    let msg_chars = str_chars(ev.message.as_str());
    let m = trim_back_chars(&msg_chars);
    let b = find_char(&m, '{');
    if b < m.len() {
        let tail = copy_range(&m, b, m.len());
        let tail_str = chars_to_string(&tail);
        if let Some(p) = pretty_json(tail_str.as_str()) {
            let prefix = copy_range(&m, 0, b);
            let prefix_str = chars_to_string(&prefix);
            let mut out = ts_str;
            out.append(prefix_str.as_str());
            out.append("\n");
            out.append(p.as_str());
            proof {
                reveal_strlit("\n");
                assert("\n"@ =~= seq!['\n']);
                assert(out@ =~= spec_format_event(ev.timestamp_ms, ev.message@));
            }
            return out;
        }
    }
    let m_str = chars_to_string(&m);
    let mut out = ts_str;
    out.append(" ");
    out.append(m_str.as_str());
    proof {
        reveal_strlit(" ");
        assert(" "@ =~= seq![' ']);
        assert(out@ =~= spec_format_event(ev.timestamp_ms, ev.message@));
    }
    out
}

} // verus!
