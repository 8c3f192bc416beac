use vstd::prelude::*;

use crate::text::chars_to_string;
use crate::text::copy_range;
use crate::text::spec_trim;
use crate::text::str_chars;
use crate::text::trim_chars;

verus! {

// ---------------------------------------------------------------------------
// Time expression resolver.
//
// A time specification is a string: empty (meaning a default relative to
// "now"), relative (`-<digits><unit>` with unit `s`, `m`, `h`, `d`, or
// omitted for seconds), or absolute (RFC 3339 with offset, or a naive
// `YYYY-MM-DD HH:MM:SS` read as UTC). Resolution is against an explicit
// reference instant `now_ms`, never the wall clock.
// ---------------------------------------------------------------------------

/// How a time specification failed to parse.
#[derive(Clone, Debug, PartialEq, Eq)]
pub enum TimeParseError {
    /// A relative specification had no digits after the `-`.
    MissingNumber,
    /// A relative specification had a unit outside `s`, `m`, `h`, `d`.
    BadUnit,
    /// The relative offset does not fit the millisecond range.
    TooLarge,
    /// An absolute specification matched neither accepted format; carries the
    /// rejected (trimmed) input.
    BadDatetime(String),
}

impl TimeParseError {
    /// A human-readable description of the failure.
    pub fn message(&self) -> (r: String)
        ensures
            r@ == match self {
                TimeParseError::MissingNumber => "missing number in relative time"@,
                TimeParseError::BadUnit => "time unit must be one of s, m, h, d"@,
                TimeParseError::TooLarge => "relative time offset too large"@,
                TimeParseError::BadDatetime(s) =>
                    "Invalid datetime '"@ + s@
                        + "'. Use either:\n- RFC3339: 2025-12-11T10:00:00Z\n- Simple:  2025-12-11 10:00:00"@,
            },
    {
        match self {
            TimeParseError::MissingNumber => String::from_str("missing number in relative time"),
            TimeParseError::BadUnit => String::from_str("time unit must be one of s, m, h, d"),
            TimeParseError::TooLarge => String::from_str("relative time offset too large"),
            TimeParseError::BadDatetime(s) => {
                let mut r = String::from_str("Invalid datetime '");
                r.append(s.as_str());
                r.append(
                    "'. Use either:\n- RFC3339: 2025-12-11T10:00:00Z\n- Simple:  2025-12-11 10:00:00",
                );
                r
            },
        }
    }
}

/// Whether a time specification resolves as the start or the end of a
/// window; the empty specification defaults differently for each.
#[derive(Copy, Clone, Debug, PartialEq, Eq, Structural)]
pub enum TimeRole {
    Start,
    End,
}

/// The default lookback for an empty start specification: fifteen minutes,
/// in milliseconds.
pub const DEFAULT_LOOKBACK_MS: i64 = 900000;

// ---------------------------------------------------------------------------
// Absolute formats, through chrono.
// ---------------------------------------------------------------------------

/// The instant, in milliseconds since the epoch, that chrono's relaxed
/// RFC 3339 parsing assigns to a string, if any. A function of the
/// characters alone.
pub uninterp spec fn spec_offset_datetime_ms(s: Seq<char>) -> Option<i64>;

/// The instant, in milliseconds since the epoch, of a naive
/// `YYYY-MM-DD HH:MM:SS` string read as UTC, if it parses. A function of the
/// characters alone.
pub uninterp spec fn spec_naive_datetime_ms(s: Seq<char>) -> Option<i64>;

/// Relies on chrono's `str::parse::<DateTime<FixedOffset>>` (relaxed
/// RFC 3339), `DateTime::with_timezone` and `DateTime::timestamp_millis`:
/// the outcome depends on the input characters alone.
#[verifier::external_body]
fn parse_offset_datetime_ms(s: &str) -> (r: Option<i64>)
    ensures
        r == spec_offset_datetime_ms(s@),
{
    match s.parse::<chrono::DateTime<chrono::FixedOffset>>() {
        Ok(dt) => Some(dt.with_timezone(&chrono::Utc).timestamp_millis()),
        Err(_) => None,
    }
}

/// Relies on chrono's `NaiveDateTime::parse_from_str` with format
/// `%Y-%m-%d %H:%M:%S`, `NaiveDateTime::and_utc` and
/// `DateTime::timestamp_millis`: the outcome depends on the input characters
/// alone.
#[verifier::external_body]
fn parse_naive_datetime_ms(s: &str) -> (r: Option<i64>)
    ensures
        r == spec_naive_datetime_ms(s@),
{
    match chrono::NaiveDateTime::parse_from_str(s, "%Y-%m-%d %H:%M:%S") {
        Ok(naive) => Some(naive.and_utc().timestamp_millis()),
        Err(_) => None,
    }
}

/// The RFC 3339 rendering of an instant given in milliseconds since the
/// epoch, if the instant is within chrono's representable range. A function
/// of the instant alone.
pub uninterp spec fn spec_rfc3339_of(ms: i64) -> Option<Seq<char>>;

/// Relies on chrono's `DateTime::<Utc>::from_timestamp_millis` (`None`
/// outside the representable range) and `DateTime::to_rfc3339`: the rendering
/// depends on the instant alone.
#[verifier::external_body]
pub(crate) fn rfc3339_of_ms(ms: i64) -> (r: Option<String>)
    ensures
        r.deep_view() == spec_rfc3339_of(ms),
{
    chrono::DateTime::<chrono::Utc>::from_timestamp_millis(ms).map(|dt| dt.to_rfc3339())
}

/// Parses a trimmed absolute time string: first as an offset-aware RFC 3339
/// instant, then as a naive `YYYY-MM-DD HH:MM:SS` read as UTC; rejects
/// anything else with an error that echoes the accepted formats.
pub fn parse_rfc3339_to_ms(s: &str) -> (r: Result<i64, TimeParseError>)
    ensures
        ({
            let t = spec_trim(s@);
            match spec_offset_datetime_ms(t) {
                Some(ms) => r == Ok::<i64, TimeParseError>(ms),
                None => match spec_naive_datetime_ms(t) {
                    Some(ms) => r == Ok::<i64, TimeParseError>(ms),
                    None => r matches Err(e) && e matches TimeParseError::BadDatetime(orig)
                        && orig@ == t,
                },
            }
        }),
{
    let chars = str_chars(s);
    let t = trim_chars(&chars);
    let trimmed = chars_to_string(&t);
    if let Some(ms) = parse_offset_datetime_ms(trimmed.as_str()) {
        return Ok(ms);
    }
    if let Some(ms) = parse_naive_datetime_ms(trimmed.as_str()) {
        return Ok(ms);
    }
    Err(TimeParseError::BadDatetime(trimmed))
}

// ---------------------------------------------------------------------------
// Relative forms.
// ---------------------------------------------------------------------------

pub open spec fn spec_is_digit(c: char) -> bool {
    '0' <= c && c <= '9'
}

pub open spec fn spec_digit_val(c: char) -> int {
    c as int - '0' as int
}

/// Length of the leading run of ASCII digits.
pub open spec fn spec_digit_run(s: Seq<char>) -> nat
    decreases s.len(),
{
    if s.len() == 0 {
        0
    } else if !spec_is_digit(s[0]) {
        0
    } else {
        1 + spec_digit_run(s.drop_first())
    }
}

/// The number written by a sequence of ASCII digits, most significant first.
pub open spec fn spec_digits_val(d: Seq<char>) -> int
    decreases d.len(),
{
    if d.len() == 0 {
        0
    } else {
        spec_digits_val(d.drop_last()) * 10 + spec_digit_val(d.last())
    }
}

/// The millisecond multiplier of a relative-time unit, if the unit is
/// accepted. An omitted unit means seconds.
pub open spec fn spec_unit_multiplier(u: Seq<char>) -> Option<int> {
    if u.len() == 0 {
        Some(1000)
    } else if u.len() == 1 && u[0] == 's' {
        Some(1000)
    } else if u.len() == 1 && u[0] == 'm' {
        Some(60000)
    } else if u.len() == 1 && u[0] == 'h' {
        Some(3600000)
    } else if u.len() == 1 && u[0] == 'd' {
        Some(86400000)
    } else {
        None
    }
}

/// The outcome a time specification resolves to, as a pure value: the
/// resolved instant, or which error. `BadDatetime` carries no payload here;
/// the resolver's contract adds what the payload is.
pub enum Resolved {
    Instant(i64),
    MissingNumber,
    BadUnit,
    TooLarge,
    BadDatetime,
}

/// What resolving a time specification `s` against `now` yields. The
/// specification is total over all inputs; `TooLarge` marks exactly the
/// relative offsets whose resolution leaves the millisecond range.
pub open spec fn spec_resolve(s: Seq<char>, now: int, role: TimeRole) -> Resolved {
    let t = spec_trim(s);
    if t.len() == 0 {
        if role == TimeRole::Start {
            Resolved::Instant((now - DEFAULT_LOOKBACK_MS) as i64)
        } else {
            Resolved::Instant(now as i64)
        }
    } else if t[0] == '-' {
        let rest = t.drop_first();
        let k = spec_digit_run(rest);
        if k == 0 {
            Resolved::MissingNumber
        } else {
            let num = spec_digits_val(rest.subrange(0, k as int));
            let unit = rest.subrange(k as int, rest.len() as int);
            match spec_unit_multiplier(unit) {
                None => Resolved::BadUnit,
                Some(m) => if num * m <= i64::MAX && i64::MIN <= now - num * m {
                    Resolved::Instant((now - num * m) as i64)
                } else {
                    Resolved::TooLarge
                },
            }
        }
    } else {
        match spec_offset_datetime_ms(t) {
            Some(ms) => Resolved::Instant(ms),
            None => match spec_naive_datetime_ms(t) {
                Some(ms) => Resolved::Instant(ms),
                None => Resolved::BadDatetime,
            },
        }
    }
}

proof fn lemma_digits_val_nonneg(d: Seq<char>)
    requires
        forall|i: int| 0 <= i < d.len() ==> spec_is_digit(d[i]),
    ensures
        spec_digits_val(d) >= 0,
    decreases d.len(),
{
    if d.len() > 0 {
        lemma_digits_val_nonneg(d.drop_last());
    }
}

/// Parses the leading digit run of `v` starting at index 0, reporting the
/// run's length and its value, or that the value exceeds `i64::MAX`.
fn parse_digit_run(v: &Vec<char>) -> (r: (usize, Option<i64>))
    ensures
        r.0 == spec_digit_run(v@),
        r.0 <= v@.len(),
        ({
            let d = v@.subrange(0, r.0 as int);
            match r.1 {
                Some(n) => n == spec_digits_val(d) && 0 <= n,
                None => spec_digits_val(d) > i64::MAX,
            }
        }),
{
    let mut i: usize = 0;
    let mut val: i64 = 0;
    let mut over: bool = false;
    proof {
        assert(v@.subrange(0, 0).len() == 0);
    }
    while i < v.len() && '0' <= v[i] && v[i] <= '9'
        invariant
            i <= v@.len(),
            forall|k: int| 0 <= k < i ==> spec_is_digit(v@[k]),
            !over ==> 0 <= val == spec_digits_val(v@.subrange(0, i as int)),
            over ==> spec_digits_val(v@.subrange(0, i as int)) > i64::MAX,
        decreases v@.len() - i,
    {
        let c = v[i];
        let d = (c as u32 - '0' as u32) as i64;
        let ghost pre = v@.subrange(0, i as int);
        let ghost cur = v@.subrange(0, i + 1);
        proof {
            assert(cur.drop_last() =~= pre);
            assert(cur.last() == v@[i as int]);
            assert(0 <= d <= 9);
        }
        if !over {
            match val.checked_mul(10) {
                Some(v10) => match v10.checked_add(d) {
                    Some(nv) => {
                        val = nv;
                    },
                    None => {
                        over = true;
                    },
                },
                None => {
                    over = true;
                },
            }
        } else {
            proof {
                lemma_digits_val_nonneg(pre);
                assert(spec_digits_val(cur) == spec_digits_val(pre) * 10 + spec_digit_val(
                    cur.last(),
                ));
                assert(spec_digits_val(pre) * 10 >= spec_digits_val(pre));
            }
        }
        i = i + 1;
    }
    proof {
        let full = v@;
        let run = i as int;
        lemma_digit_run_characterize(full, run);
    }
    if over {
        (i, None)
    } else {
        (i, Some(val))
    }
}

proof fn lemma_digit_run_characterize(s: Seq<char>, i: int)
    requires
        0 <= i <= s.len(),
        forall|k: int| 0 <= k < i ==> spec_is_digit(s[k]),
        i == s.len() || !spec_is_digit(s[i]),
    ensures
        spec_digit_run(s) == i,
    decreases i,
{
    if i > 0 {
        let t = s.drop_first();
        assert(forall|k: int| 0 <= k < i - 1 ==> t[k] == s[k + 1] && spec_is_digit(t[k]));
        lemma_digit_run_characterize(t, i - 1);
    }
}

/// Resolves a time specification against the reference instant `now_ms`.
///
/// The empty specification resolves to `now_ms` less the default lookback
/// for a start value and to `now_ms` itself for an end value. A leading `-`
/// introduces a relative offset of `<digits>` times the unit's multiplier.
/// Anything else must be an accepted absolute format.
pub fn resolve_time_spec(s: &str, now_ms: i64, role: TimeRole) -> (r: Result<
    i64,
    TimeParseError,
>)
    requires
        now_ms >= i64::MIN + DEFAULT_LOOKBACK_MS,
    ensures
        ({
            match spec_resolve(s@, now_ms as int, role) {
                Resolved::Instant(ms) => r == Ok::<i64, TimeParseError>(ms),
                Resolved::MissingNumber => r == Err::<i64, TimeParseError>(
                    TimeParseError::MissingNumber,
                ),
                Resolved::BadUnit => r == Err::<i64, TimeParseError>(TimeParseError::BadUnit),
                Resolved::TooLarge => r == Err::<i64, TimeParseError>(TimeParseError::TooLarge),
                Resolved::BadDatetime => r matches Err(e)
                    && e matches TimeParseError::BadDatetime(orig) && orig@ == spec_trim(s@),
            }
        }),
{
    let chars = str_chars(s);
    let t = trim_chars(&chars);
    if t.len() == 0 {
        if role == TimeRole::Start {
            return Ok(now_ms - DEFAULT_LOOKBACK_MS);
        } else {
            return Ok(now_ms);
        }
    }
    if t[0] == '-' {
        let rest = copy_range(&t, 1, t.len());
        proof {
            assert(rest@ =~= t@.drop_first());
        }
        let (k, num) = parse_digit_run(&rest);
        if k == 0 {
            return Err(TimeParseError::MissingNumber);
        }
        let ghost unit = rest@.subrange(k as int, rest@.len() as int);
        let mult: i64;
        if k == rest.len() {
            mult = 1000;
            proof {
                assert(unit.len() == 0);
                assert(spec_unit_multiplier(unit) == Some(1000int));
            }
        } else if k + 1 == rest.len() && rest[k] == 's' {
            mult = 1000;
            proof {
                assert(unit.len() == 1 && unit[0] == 's');
                assert(spec_unit_multiplier(unit) == Some(1000int));
            }
        } else if k + 1 == rest.len() && rest[k] == 'm' {
            mult = 60000;
            proof {
                assert(unit.len() == 1 && unit[0] == 'm');
                assert(spec_unit_multiplier(unit) == Some(60000int));
            }
        } else if k + 1 == rest.len() && rest[k] == 'h' {
            mult = 3600000;
            proof {
                assert(unit.len() == 1 && unit[0] == 'h');
                assert(spec_unit_multiplier(unit) == Some(3600000int));
            }
        } else if k + 1 == rest.len() && rest[k] == 'd' {
            mult = 86400000;
            proof {
                assert(unit.len() == 1 && unit[0] == 'd');
                assert(spec_unit_multiplier(unit) == Some(86400000int));
            }
        } else {
            proof {
                assert(unit.len() > 0);
                assert(unit[0] == rest@[k as int]);
            }
            return Err(TimeParseError::BadUnit);
        }
        proof {
            assert(spec_unit_multiplier(unit) == Some(mult as int));
        }
        let n: i64;
        match num {
            Some(value) => {
                n = value;
            },
            None => {
                proof {
                    let nv = spec_digits_val(rest@.subrange(0, k as int));
                    assert(nv * mult > i64::MAX) by (nonlinear_arith)
                        requires
                            nv > i64::MAX,
                            mult >= 1000,
                    ;
                }
                return Err(TimeParseError::TooLarge);
            },
        }
        match n.checked_mul(mult) {
            Some(offset) => match now_ms.checked_sub(offset) {
                Some(resolved) => {
                    proof {
                        assert(0 <= n * mult <= i64::MAX) by (nonlinear_arith)
                            requires
                                0 <= n,
                                1000 <= mult,
                                n * mult <= i64::MAX || n * mult < i64::MIN,
                        ;
                    }
                    return Ok(resolved);
                },
                None => {
                    return Err(TimeParseError::TooLarge);
                },
            },
            None => {
                proof {
                    assert(n * mult > i64::MAX) by (nonlinear_arith)
                        requires
                            0 <= n,
                            1000 <= mult,
                            n * mult > i64::MAX || n * mult < i64::MIN,
                    ;
                }
                return Err(TimeParseError::TooLarge);
            },
        }
    }
    let trimmed = chars_to_string(&t);
    if let Some(ms) = parse_offset_datetime_ms(trimmed.as_str()) {
        return Ok(ms);
    }
    if let Some(ms) = parse_naive_datetime_ms(trimmed.as_str()) {
        return Ok(ms);
    }
    Err(TimeParseError::BadDatetime(trimmed))
}

} // verus!
