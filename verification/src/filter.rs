use vstd::prelude::*;

use crate::is_ws;
use crate::spec_is_ws;
use crate::text::append_range;
use crate::text::chars_to_string;
use crate::text::copy_range;
use crate::text::find_char;
use crate::text::lemma_find_props;
use crate::text::lemma_trim_noop;
use crate::text::spec_find;
use crate::text::spec_trim;
use crate::text::spec_trim_back;
use crate::text::spec_trim_front;
use crate::text::str_chars;
use crate::text::trim_chars;

verus! {

// ---------------------------------------------------------------------------
// Filter pattern compiler.
//
// A filter entered by the user is either already in the store's native
// syntax (it starts with `{` or `[`, or it mentions the field selector `$`),
// in which case it is passed through unchanged, or it is a
// whitespace-separated list of `field=value` / `field:value` shorthands.
// When every token is such a shorthand the tokens are compiled into one
// native conjunction `{ $.f1 = v1 && $.f2 = v2 }`; when any token is not,
// the input is returned unchanged rather than half-compiled.
// ---------------------------------------------------------------------------

/// Length of the leading run of non-whitespace characters.
pub open spec fn spec_token_len(s: Seq<char>) -> nat
    decreases s.len(),
{
    if s.len() == 0 {
        0
    } else if spec_is_ws(s[0]) {
        0
    } else {
        1 + spec_token_len(s.drop_first())
    }
}

pub proof fn lemma_token_len_bound(s: Seq<char>)
    ensures
        spec_token_len(s) <= s.len(),
    decreases s.len(),
{
    if s.len() > 0 && !spec_is_ws(s[0]) {
        lemma_token_len_bound(s.drop_first());
    }
}

pub proof fn lemma_token_len_characterize(s: Seq<char>, i: int)
    requires
        0 <= i <= s.len(),
        forall|k: int| 0 <= k < i ==> !spec_is_ws(s[k]),
        i == s.len() || spec_is_ws(s[i]),
    ensures
        spec_token_len(s) == i,
    decreases i,
{
    if i > 0 {
        let t = s.drop_first();
        assert(forall|k: int| 0 <= k < i - 1 ==> !spec_is_ws(t[k]));
        lemma_token_len_characterize(t, i - 1);
    }
}

/// The whitespace-separated tokens of `s`, in order.
pub open spec fn spec_tokens(s: Seq<char>) -> Seq<Seq<char>>
    decreases s.len(),
    via spec_tokens_decreases
{
    if s.len() == 0 {
        Seq::empty()
    } else if spec_is_ws(s[0]) {
        spec_tokens(s.drop_first())
    } else {
        seq![s.subrange(0, spec_token_len(s) as int)]
            + spec_tokens(s.subrange(spec_token_len(s) as int, s.len() as int))
    }
}

#[via_fn]
proof fn spec_tokens_decreases(s: Seq<char>) {
    if s.len() > 0 && !spec_is_ws(s[0]) {
        lemma_token_len_bound(s);
    }
}

/// The native equality clause for a recognized `field`/`value` pair.
pub open spec fn spec_clause_text(f: Seq<char>, v: Seq<char>) -> Seq<char> {
    seq!['$', '.'] + f + seq![' ', '=', ' '] + v
}

/// The native clause a single token compiles to, if the token is a
/// `field=value` or `field:value` shorthand with both sides non-empty.
/// A `=` takes precedence: a token containing `=` is never read as a
/// `field:value` shorthand.
pub open spec fn spec_clause(t: Seq<char>) -> Option<Seq<char>> {
    let e = spec_find(t, '=');
    let c = spec_find(t, ':');
    if e < t.len() {
        if 0 < e && e + 1 < t.len() {
            Some(spec_clause_text(t.subrange(0, e), t.subrange(e + 1, t.len() as int)))
        } else {
            None
        }
    } else if c < t.len() {
        if 0 < c && c + 1 < t.len() {
            Some(spec_clause_text(t.subrange(0, c), t.subrange(c + 1, t.len() as int)))
        } else {
            None
        }
    } else {
        None
    }
}

/// The clauses joined by the native boolean-and operator.
pub open spec fn spec_join(cls: Seq<Seq<char>>) -> Seq<char>
    decreases cls.len(),
{
    if cls.len() == 0 {
        Seq::empty()
    } else if cls.len() == 1 {
        cls[0]
    } else {
        spec_join(cls.drop_last()) + seq![' ', '&', '&', ' '] + cls.last()
    }
}

/// Whether a trimmed non-empty filter already looks like the store's native
/// syntax.
pub open spec fn spec_is_native(t: Seq<char>) -> bool {
    t[0] == '{' || t[0] == '[' || t.contains('$')
}

/// Whether every token of `t` is a recognized shorthand.
pub open spec fn spec_all_recognized(t: Seq<char>) -> bool {
    forall|i: int|
        0 <= i < spec_tokens(t).len() ==> #[trigger] spec_clause(spec_tokens(t)[i]) is Some
}

/// The compiled conjunction for a fully recognized token list.
pub open spec fn spec_conjunction(t: Seq<char>) -> Seq<char> {
    seq!['{', ' '] + spec_join(
        Seq::new(spec_tokens(t).len(), |i: int| spec_clause(spec_tokens(t)[i]).unwrap()),
    ) + seq![' ', '}']
}

/// What the filter pattern compiler returns for input `s`: the empty filter
/// for blank input, the input itself (identically) when it is already
/// native or holds an unrecognized token, and the compiled conjunction
/// otherwise. Nativeness is judged on the trimmed text.
pub open spec fn spec_compile(s: Seq<char>) -> Seq<char> {
    let t = spec_trim(s);
    if t.len() == 0 {
        Seq::empty()
    } else if spec_is_native(t) {
        s
    } else if spec_all_recognized(t) {
        spec_conjunction(t)
    } else {
        s
    }
}

/// Whether `c` occurs in `v`.
fn contains_char(v: &Vec<char>, c: char) -> (r: bool)
    ensures
        r == v@.contains(c),
{
    let i = find_char(v, c);
    proof {
        lemma_find_props(v@, c);
        if i < v@.len() {
            assert(v@[i as int] == c);
        }
    }
    i < v.len()
}

/// Index one past the end of the token starting at `from` (a maximal run of
/// non-whitespace characters).
fn token_end(v: &Vec<char>, from: usize) -> (q: usize)
    requires
        from <= v@.len(),
    ensures
        from <= q <= v@.len(),
        forall|k: int| from <= k < q ==> !spec_is_ws(v@[k]),
        q == v@.len() || spec_is_ws(v@[q as int]),
{
    let mut q: usize = from;
    while q < v.len() && !is_ws(v[q])
        invariant
            from <= q <= v@.len(),
            forall|k: int| from <= k < q ==> !spec_is_ws(v@[k]),
        decreases v@.len() - q,
    {
        q = q + 1;
    }
    q
}

/// Splits `t` into the index ranges of its whitespace-separated tokens.
fn tokenize(t: &Vec<char>) -> (toks: Vec<(usize, usize)>)
    ensures
        toks@.len() == spec_tokens(t@).len(),
        forall|i: int| 0 <= i < toks@.len() ==> #[trigger] toks@[i].0 <= toks@[i].1 <= t@.len()
            && t@.subrange(toks@[i].0 as int, toks@[i].1 as int) == spec_tokens(t@)[i],
{
    let mut toks: Vec<(usize, usize)> = Vec::new();
    let ghost mut done = Seq::<Seq<char>>::empty();
    let mut p: usize = 0;
    proof {
        assert(t@.subrange(0, t@.len() as int) =~= t@);
    }
    while p < t.len()
        invariant
            p <= t@.len(),
            done + spec_tokens(t@.subrange(p as int, t@.len() as int)) == spec_tokens(t@),
            done.len() == toks@.len(),
            forall|i: int| 0 <= i < toks@.len() ==> #[trigger] toks@[i].0 <= toks@[i].1
                <= t@.len() && t@.subrange(toks@[i].0 as int, toks@[i].1 as int) == done[i],
        decreases t@.len() - p,
    {
        let ghost rest = t@.subrange(p as int, t@.len() as int);
        if is_ws(t[p]) {
            proof {
                assert(rest.drop_first() =~= t@.subrange(p + 1, t@.len() as int));
            }
            p = p + 1;
        } else {
            let q = token_end(t, p);
            proof {
                lemma_token_len_characterize(rest, q - p);
                assert(rest.subrange(0, q - p) =~= t@.subrange(p as int, q as int));
                assert(rest.subrange(q - p, rest.len() as int)
                    =~= t@.subrange(q as int, t@.len() as int));
                assert(spec_tokens(rest) == seq![t@.subrange(p as int, q as int)]
                    + spec_tokens(t@.subrange(q as int, t@.len() as int)));
            }
            toks.push((p, q));
            proof {
                done = done.push(t@.subrange(p as int, q as int));
                assert(done + spec_tokens(t@.subrange(q as int, t@.len() as int))
                    =~= spec_tokens(t@));
            }
            p = q;
        }
    }
    proof {
        assert(spec_tokens(t@.subrange(t@.len() as int, t@.len() as int)) =~= Seq::empty());
        assert(done =~= spec_tokens(t@));
    }
    toks
}

/// Appends the native clause for the token `t[a..b]` onto `out`, or reports
/// that the token is not a recognized shorthand.
fn append_clause(out: &mut Vec<char>, t: &Vec<char>, a: usize, b: usize) -> (ok: bool)
    requires
        a <= b <= t@.len(),
    ensures
        ok == (spec_clause(t@.subrange(a as int, b as int)) is Some),
        ok ==> final(out)@ == old(out)@ + spec_clause(t@.subrange(a as int, b as int)).unwrap(),
        !ok ==> final(out)@ == old(out)@,
{
    let tok = copy_range(t, a, b);
    let e = find_char(&tok, '=');
    let sep: usize;
    if e < tok.len() {
        sep = e;
    } else {
        sep = find_char(&tok, ':');
    }
    if sep >= tok.len() || sep == 0 || sep + 1 >= tok.len() {
        return false;
    }
    out.push('$');
    out.push('.');
    append_range(out, &tok, 0, sep);
    out.push(' ');
    out.push('=');
    out.push(' ');
    append_range(out, &tok, sep + 1, tok.len());
    proof {
        let tk = t@.subrange(a as int, b as int);
        assert(out@ =~= old(out)@ + spec_clause_text(
            tk.subrange(0, sep as int),
            tk.subrange(sep + 1, tk.len() as int),
        ));
    }
    true
}

/// Compiles a user-entered filter into the store's native filter syntax.
///
/// Empty or all-whitespace input compiles to the empty filter. Input that
/// already looks native is returned unchanged. Otherwise every
/// whitespace-separated token must be a `field=value` or `field:value`
/// shorthand; the tokens then become one native conjunction. If any token
/// is not recognized, the input is returned unchanged rather than
/// half-compiled.
pub fn normalize_filter_pattern(raw: &str) -> (r: String)
    ensures
        r@ == spec_compile(raw@),
{
    let chars = str_chars(raw);
    let t = trim_chars(&chars);
    if t.len() == 0 {
        return String::new();
    }
    if t[0] == '{' || t[0] == '[' || contains_char(&t, '$') {
        return String::from_str(raw);
    }
    let toks = tokenize(&t);
    let ghost tokseq = spec_tokens(t@);
    let mut joined: Vec<char> = Vec::new();
    let mut i: usize = 0;
    while i < toks.len()
        invariant
            i <= toks@.len(),
            toks@.len() == tokseq.len(),
            tokseq == spec_tokens(t@),
            t@ == spec_trim(raw@),
            t@.len() != 0,
            !spec_is_native(t@),
            forall|k: int| 0 <= k < toks@.len() ==> #[trigger] toks@[k].0 <= toks@[k].1
                <= t@.len() && t@.subrange(toks@[k].0 as int, toks@[k].1 as int) == tokseq[k],
            forall|k: int| 0 <= k < i ==> #[trigger] spec_clause(tokseq[k]) is Some,
            joined@ == spec_join(Seq::new(i as nat, |k: int| spec_clause(tokseq[k]).unwrap())),
        decreases toks@.len() - i,
    {
        let (a, b) = toks[i];
        if i > 0 {
            joined.push(' ');
            joined.push('&');
            joined.push('&');
            joined.push(' ');
        }
        let ghost before = joined@;
        let ok = append_clause(&mut joined, &t, a, b);
        proof {
            assert(tokseq[i as int] == t@.subrange(a as int, b as int));
        }
        if !ok {
            proof {
                assert(spec_clause(tokseq[i as int]) is None);
                assert(!spec_all_recognized(t@));
            }
            return String::from_str(raw);
        }
        i = i + 1;
        proof {
            let cs = Seq::new(i as nat, |k: int| spec_clause(tokseq[k]).unwrap());
            if i == 1 {
                assert(joined@ =~= spec_join(cs));
            } else {
                assert(cs.drop_last() =~= Seq::new(
                    (i - 1) as nat,
                    |k: int| spec_clause(tokseq[k]).unwrap(),
                ));
                assert(joined@ =~= spec_join(cs.drop_last()) + seq![' ', '&', '&', ' ']
                    + cs.last());
            }
        }
    }
    let mut out: Vec<char> = Vec::new();
    out.push('{');
    out.push(' ');
    let mut j = joined;
    crate::text::append_all(&mut out, &j);
    out.push(' ');
    out.push('}');
    proof {
        assert(spec_all_recognized(t@));
        assert(Seq::new(toks@.len(), |k: int| spec_clause(tokseq[k]).unwrap())
            =~= Seq::new(tokseq.len(), |k: int| spec_clause(tokseq[k]).unwrap()));
        assert(out@ =~= spec_conjunction(t@));
    }
    chars_to_string(&out)
}

// ---------------------------------------------------------------------------
// The compiler is idempotent.
// ---------------------------------------------------------------------------

/// Compiling a filter twice yields what compiling it once yields: the
/// passed-through branches are the identity, and a compiled conjunction is
/// itself native.
pub proof fn lemma_compile_idempotent(s: Seq<char>)
    ensures
        spec_compile(spec_compile(s)) == spec_compile(s),
{
    let t = spec_trim(s);
    if t.len() == 0 {
        let e = Seq::<char>::empty();
        assert(spec_trim_front(e) == e);
        assert(spec_trim_back(e) == e);
        assert(spec_compile(e) =~= e);
    } else if spec_is_native(t) {
    } else if spec_all_recognized(t) {
        let o = spec_conjunction(t);
        assert(o[0] == '{');
        assert(o.last() == '}');
        assert(!spec_is_ws(o[0]));
        assert(!spec_is_ws(o[o.len() - 1]));
        lemma_trim_noop(o);
        assert(spec_is_native(spec_trim(o)));
        assert(spec_compile(o) == o);
    } else {
    }
}

} // verus!
