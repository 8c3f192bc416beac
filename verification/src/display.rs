use vstd::prelude::*;

use crate::text::chars_to_string;
use crate::text::copy_range;
use crate::text::find_char;
use crate::text::lemma_find_props;
use crate::text::spec_find;
use crate::text::str_chars;

verus! {

// ---------------------------------------------------------------------------
// Preparing result entries for the screen.
//
// A result entry may span several display lines; the renderer works on the
// flattened list. Tabs become four spaces so columns never merge, a line
// that starts like an RFC 3339 instant gets its timestamp coloured
// separately, and the scrollbar geometry is computed here.
// ---------------------------------------------------------------------------

/// The newline-separated display lines of one entry; a trailing newline
/// yields no empty last line, and the empty entry yields none at all.
pub open spec fn spec_split_lines(s: Seq<char>) -> Seq<Seq<char>>
    decreases s.len(),
    via spec_split_lines_decreases
{
    if s.len() == 0 {
        Seq::empty()
    } else {
        let k = spec_find(s, '\n');
        if k < s.len() {
            seq![s.subrange(0, k)] + spec_split_lines(s.subrange(k + 1, s.len() as int))
        } else {
            seq![s]
        }
    }
}

#[via_fn]
proof fn spec_split_lines_decreases(s: Seq<char>) {
    lemma_find_props(s, '\n');
}

/// All display lines of all entries, in order.
pub open spec fn spec_flat_lines(ls: Seq<Seq<char>>) -> Seq<Seq<char>>
    decreases ls.len(),
{
    if ls.len() == 0 {
        Seq::empty()
    } else {
        spec_flat_lines(ls.drop_last()) + spec_split_lines(ls.last())
    }
}

/// Splits one entry into its display lines.
pub fn split_display_lines(s: &str) -> (r: Vec<String>)
    ensures
        r.deep_view() == spec_split_lines(s@),
{
    let mut r: Vec<String> = Vec::new();
    let mut rest = str_chars(s);
    while rest.len() > 0
        invariant
            r.deep_view() + spec_split_lines(rest@) == spec_split_lines(s@),
        decreases rest@.len(),
    {
        let ghost before = r.deep_view();
        let ghost rv = rest@;
        let k = find_char(&rest, '\n');
        proof {
            lemma_find_props(rv, '\n');
        }
        if k < rest.len() {
            let head = copy_range(&rest, 0, k);
            r.push(chars_to_string(&head));
            let tail = copy_range(&rest, k + 1, rest.len());
            rest = tail;
            proof {
                assert(r.deep_view() =~= before + seq![rv.subrange(0, k as int)]);
                assert(r.deep_view() + spec_split_lines(rest@) =~= spec_split_lines(s@));
            }
        } else {
            let whole = copy_range(&rest, 0, rest.len());
            r.push(chars_to_string(&whole));
            rest = Vec::new();
            proof {
                assert(rv.subrange(0, rv.len() as int) =~= rv);
                assert(r.deep_view() =~= before + seq![rv]);
                assert(spec_split_lines(rest@) =~= Seq::<Seq<char>>::empty());
                assert(r.deep_view() + spec_split_lines(rest@) =~= spec_split_lines(s@));
            }
        }
    }
    proof {
        assert(spec_split_lines(rest@) =~= Seq::<Seq<char>>::empty());
        assert(r.deep_view() =~= r.deep_view() + spec_split_lines(rest@));
    }
    r
}

/// Flattens the entries into the full list of display lines.
pub fn flatten_lines(entries: &Vec<String>) -> (r: Vec<String>)
    ensures
        r.deep_view() == spec_flat_lines(entries.deep_view()),
{
    let ghost ev = entries.deep_view();
    let mut r: Vec<String> = Vec::new();
    let mut i: usize = 0;
    while i < entries.len()
        invariant
            i <= entries@.len(),
            ev == entries.deep_view(),
            ev.len() == entries@.len(),
            forall|k: int| 0 <= k < ev.len() ==> ev[k] == #[trigger] entries@[k]@,
            r.deep_view() == spec_flat_lines(ev.subrange(0, i as int)),
        decreases entries@.len() - i,
    {
        let ghost pre = ev.subrange(0, i as int);
        let ghost cur = ev.subrange(0, i + 1);
        proof {
            assert(cur.drop_last() =~= pre);
            assert(cur.last() == ev[i as int]);
        }
        let ghost before = r.deep_view();
        let mut part = split_display_lines(entries[i].as_str());
        let ghost pv = part.deep_view();
        r.append(&mut part);
        proof {
            assert(r.deep_view() =~= before + pv);
            assert(r.deep_view() =~= spec_flat_lines(cur));
        }
        i = i + 1;
    }
    proof {
        assert(ev.subrange(0, ev.len() as int) =~= ev);
    }
    r
}

/// The line with each tab replaced by four spaces.
pub open spec fn spec_expand_tabs(s: Seq<char>) -> Seq<char>
    decreases s.len(),
{
    if s.len() == 0 {
        Seq::empty()
    } else {
        spec_expand_tabs(s.drop_last()) + if s.last() == '\t' {
            seq![' ', ' ', ' ', ' ']
        } else {
            seq![s.last()]
        }
    }
}

/// Replaces each tab with four spaces, so that adjacent tokens never merge.
pub fn expand_tabs(s: &str) -> (r: String)
    ensures
        r@ == spec_expand_tabs(s@),
{
    let v = str_chars(s);
    let mut out: Vec<char> = Vec::new();
    let mut i: usize = 0;
    while i < v.len()
        invariant
            i <= v@.len(),
            v@ == s@,
            out@ == spec_expand_tabs(v@.subrange(0, i as int)),
        decreases v@.len() - i,
    {
        let ghost pre = v@.subrange(0, i as int);
        let ghost cur = v@.subrange(0, i + 1);
        proof {
            assert(cur.drop_last() =~= pre);
            assert(cur.last() == v@[i as int]);
        }
        if v[i] == '\t' {
            out.push(' ');
            out.push(' ');
            out.push(' ');
            out.push(' ');
        } else {
            out.push(v[i]);
        }
        i = i + 1;
        proof {
            assert(out@ =~= spec_expand_tabs(cur));
        }
    }
    proof {
        assert(v@.subrange(0, v@.len() as int) =~= v@);
    }
    chars_to_string(&out)
}

/// Whether a display line starts like an RFC 3339 instant, so its timestamp
/// prefix is coloured: long enough, dashes and a `T` in the date positions,
/// and a `Z` ending or a `+` offset.
pub open spec fn spec_looks_like_ts(s: Seq<char>) -> bool {
    s.len() >= 20 && s[4] == '-' && s[7] == '-' && s[10] == 'T' && (s.last() == 'Z' || s.contains(
        '+',
    ))
}

/// Tests the timestamp heuristic on one display line.
pub fn looks_like_timestamp(s: &str) -> (r: bool)
    ensures
        r == spec_looks_like_ts(s@),
{
    let v = str_chars(s);
    if v.len() < 20 {
        return false;
    }
    if v[4] != '-' || v[7] != '-' || v[10] != 'T' {
        return false;
    }
    if v[v.len() - 1] == 'Z' {
        return true;
    }
    let p = find_char(&v, '+');
    proof {
        lemma_find_props(v@, '+');
        if p < v@.len() {
            assert(v@[p as int] == '+');
        }
    }
    p < v.len()
}

/// Splits a display line into its timestamp prefix (up to the first space)
/// and the rest (the space included).
pub fn timestamp_split(s: &str) -> (r: (String, String))
    ensures
        ({
            let k = spec_find(s@, ' ');
            r.0@ == s@.subrange(0, k) && r.1@ == s@.subrange(k, s@.len() as int)
        }),
{
    let v = str_chars(s);
    let k = find_char(&v, ' ');
    let head = copy_range(&v, 0, k);
    let tail = copy_range(&v, k, v.len());
    proof {
        lemma_find_props(v@, ' ');
    }
    (chars_to_string(&head), chars_to_string(&tail))
}

// ---------------------------------------------------------------------------
// Scrollbar geometry.
// ---------------------------------------------------------------------------

/// The scrollbar thumb's height for `total` lines in a `view`-row window:
/// proportional, at least one row, at most the window.
pub open spec fn spec_thumb_h(total: int, view: int) -> int {
    let t = (view * view) / total;
    if t < 1 {
        1
    } else if t > view {
        view
    } else {
        t
    }
}

/// The scroll offset clamped to the scrollable range.
pub open spec fn spec_clamped_scroll(scroll: int, total: int, view: int) -> int {
    let max_scroll = if total >= view {
        total - view
    } else {
        0
    };
    if scroll <= max_scroll {
        scroll
    } else {
        max_scroll
    }
}

/// The thumb's top row for a clamped scroll offset.
pub open spec fn spec_thumb_top(scroll: int, total: int, view: int) -> int {
    let max_scroll = if total >= view {
        total - view
    } else {
        0
    };
    if max_scroll == 0 {
        0
    } else {
        (spec_clamped_scroll(scroll, total, view) * (view - spec_thumb_h(total, view)))
            / max_scroll
    }
}

/// Computes the scrollbar thumb: its height and top row, for a window of
/// `view` rows over `total` lines scrolled to `scroll`.
pub fn scrollbar_metrics(scroll: usize, total: usize, view: usize) -> (r: (usize, usize))
    requires
        view >= 1,
        total >= 2,
    ensures
        r.0 == spec_thumb_h(total as int, view as int),
        r.1 == spec_thumb_top(scroll as int, total as int, view as int),
        r.0 <= view,
        r.1 + r.0 <= view,
{
    proof {
        assert((view as int) * (view as int) <= u128::MAX) by (nonlinear_arith)
            requires
                0 <= view as int <= u64::MAX,
        ;
    }
    let t128 = (view as u128) * (view as u128) / (total as u128);
    let thumb_h: usize = if t128 < 1 {
        1
    } else if t128 > view as u128 {
        view
    } else {
        t128 as usize
    };
    let max_scroll: usize = if total >= view {
        total - view
    } else {
        0
    };
    let clamped: usize = if scroll <= max_scroll {
        scroll
    } else {
        max_scroll
    };
    let thumb_top: usize;
    if max_scroll == 0 {
        thumb_top = 0;
    } else {
        proof {
            assert((clamped as int) * ((view - thumb_h) as int) <= u128::MAX) by (nonlinear_arith)
                requires
                    0 <= clamped as int <= u64::MAX,
                    0 <= (view - thumb_h) as int <= u64::MAX,
            ;
        }
        let prod = (clamped as u128) * ((view - thumb_h) as u128);
        let top128 = prod / (max_scroll as u128);
        proof {
            let c = clamped as int;
            let w = (view - thumb_h) as int;
            let m = max_scroll as int;
            vstd::arithmetic::mul::lemma_mul_inequality(c, m, w);
            vstd::arithmetic::div_mod::lemma_div_is_ordered(c * w, m * w, m);
            vstd::arithmetic::mul::lemma_mul_is_commutative(m, w);
            vstd::arithmetic::div_mod::lemma_div_multiples_vanish(w, m);
            assert((c * w) / m <= w);
        }
        thumb_top = top128 as usize;
    }
    (thumb_h, thumb_top)
}

} // verus!
