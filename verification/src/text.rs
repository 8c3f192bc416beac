use vstd::prelude::*;

use crate::is_ws;
use crate::spec_is_ws;

verus! {

// ---------------------------------------------------------------------------
// Conversions between `str`/`String` and `Vec<char>`.
//
// All text manipulation in this crate happens on `Vec<char>`, whose view is
// the same `Seq<char>` as the view of the string it came from.
// ---------------------------------------------------------------------------

/// Collects the characters of a string slice into a vector.
pub fn str_chars(s: &str) -> (r: Vec<char>)
    ensures
        r@ == s@,
{
    let n = s.unicode_len();
    let mut r: Vec<char> = Vec::new();
    let mut i: usize = 0;
    while i < n
        invariant
            n == s@.len(),
            i <= n,
            r@ == s@.subrange(0, i as int),
        decreases n - i,
    {
        r.push(s.get_char(i));
        i = i + 1;
        proof {
            assert(r@ =~= s@.subrange(0, i as int));
        }
    }
    proof {
        assert(r@ =~= s@);
    }
    r
}

/// Relies on `String: FromIterator<char>`: collecting chars yields the string
/// with exactly those characters in order.
#[verifier::external_body]
pub(crate) fn chars_to_string(v: &Vec<char>) -> (r: String)
    ensures
        r@ == v@,
{
    v.iter().collect()
}

// ---------------------------------------------------------------------------
// Trimming leading and trailing whitespace.
// ---------------------------------------------------------------------------

/// The sequence with its leading run of whitespace removed.
pub open spec fn spec_trim_front(s: Seq<char>) -> Seq<char>
    decreases s.len(),
{
    if s.len() == 0 {
        s
    } else if spec_is_ws(s[0]) {
        spec_trim_front(s.drop_first())
    } else {
        s
    }
}

/// The sequence with its trailing run of whitespace removed.
pub open spec fn spec_trim_back(s: Seq<char>) -> Seq<char>
    decreases s.len(),
{
    if s.len() == 0 {
        s
    } else if spec_is_ws(s[s.len() - 1]) {
        spec_trim_back(s.drop_last())
    } else {
        s
    }
}

/// The sequence with leading and trailing whitespace removed.
pub open spec fn spec_trim(s: Seq<char>) -> Seq<char> {
    spec_trim_back(spec_trim_front(s))
}

pub proof fn lemma_trim_front_subrange(s: Seq<char>, i: int)
    requires
        0 <= i <= s.len(),
        forall|k: int| 0 <= k < i ==> spec_is_ws(s[k]),
        i == s.len() || !spec_is_ws(s[i]),
    ensures
        spec_trim_front(s) == s.subrange(i, s.len() as int),
    decreases i,
{
    if i == 0 {
        if s.len() == 0 {
            assert(s.subrange(0, s.len() as int) =~= s);
        } else {
            assert(s.subrange(0, s.len() as int) =~= s);
        }
    } else {
        assert(spec_is_ws(s[0]));
        let t = s.drop_first();
        assert(forall|k: int| 0 <= k < i - 1 ==> spec_is_ws(t[k]));
        lemma_trim_front_subrange(t, i - 1);
        assert(t.subrange(i - 1, t.len() as int) =~= s.subrange(i, s.len() as int));
    }
}

pub proof fn lemma_trim_back_subrange(s: Seq<char>, j: int)
    requires
        0 <= j <= s.len(),
        forall|k: int| j <= k < s.len() ==> spec_is_ws(s[k]),
        j == 0 || !spec_is_ws(s[j - 1]),
    ensures
        spec_trim_back(s) == s.subrange(0, j),
    decreases s.len() - j,
{
    if j == s.len() {
        assert(s.subrange(0, j) =~= s);
    } else {
        assert(spec_is_ws(s[s.len() - 1]));
        let t = s.drop_last();
        lemma_trim_back_subrange(t, j);
        assert(t.subrange(0, j) =~= s.subrange(0, j));
    }
}

/// A sequence that is empty, or that begins and ends with non-whitespace,
/// is fixed by trimming.
pub proof fn lemma_trim_noop(s: Seq<char>)
    requires
        s.len() == 0 || (!spec_is_ws(s[0]) && !spec_is_ws(s[s.len() - 1])),
    ensures
        spec_trim(s) == s,
{
    if s.len() == 0 {
    } else {
        assert(spec_trim_front(s) == s);
        assert(spec_trim_back(s) == s);
    }
}

/// Index of the first non-whitespace character, or the length if there is
/// none.
fn ws_start(v: &Vec<char>) -> (i: usize)
    ensures
        i <= v@.len(),
        forall|k: int| 0 <= k < i ==> spec_is_ws(v@[k]),
        i == v@.len() || !spec_is_ws(v@[i as int]),
{
    let mut i: usize = 0;
    while i < v.len() && is_ws(v[i])
        invariant
            i <= v@.len(),
            forall|k: int| 0 <= k < i ==> spec_is_ws(v@[k]),
        decreases v@.len() - i,
    {
        i = i + 1;
    }
    i
}

/// Copies the characters of `v` in positions `from..to` into a new vector.
pub fn copy_range(v: &Vec<char>, from: usize, to: usize) -> (r: Vec<char>)
    requires
        from <= to <= v@.len(),
    ensures
        r@ == v@.subrange(from as int, to as int),
{
    let mut r: Vec<char> = Vec::new();
    let mut i: usize = from;
    while i < to
        invariant
            from <= i <= to <= v@.len(),
            r@ == v@.subrange(from as int, i as int),
        decreases to - i,
    {
        r.push(v[i]);
        i = i + 1;
        proof {
            assert(r@ =~= v@.subrange(from as int, i as int));
        }
    }
    r
}

/// Removes leading and trailing whitespace.
pub fn trim_chars(v: &Vec<char>) -> (r: Vec<char>)
    ensures
        r@ == spec_trim(v@),
{
    let i = ws_start(v);
    proof {
        lemma_trim_front_subrange(v@, i as int);
    }
    let mut j: usize = v.len();
    while j > i && is_ws(v[j - 1])
        invariant
            i <= j <= v@.len(),
            i == v@.len() || !spec_is_ws(v@[i as int]),
            forall|k: int| j <= k < v@.len() ==> spec_is_ws(v@[k]),
        decreases j,
    {
        j = j - 1;
    }
    let r = copy_range(v, i, j);
    proof {
        let f = v@.subrange(i as int, v@.len() as int);
        assert(forall|k: int| j - i <= k < f.len() ==> spec_is_ws(f[k]));
        lemma_trim_back_subrange(f, j - i);
        assert(f.subrange(0, j - i) =~= v@.subrange(i as int, j as int));
    }
    r
}

/// Appends the characters of `src` in positions `from..to` onto `dst`.
pub fn append_range(dst: &mut Vec<char>, src: &Vec<char>, from: usize, to: usize)
    requires
        from <= to <= src@.len(),
    ensures
        final(dst)@ == old(dst)@ + src@.subrange(from as int, to as int),
{
    let mut i: usize = from;
    while i < to
        invariant
            from <= i <= to <= src@.len(),
            dst@ == old(dst)@ + src@.subrange(from as int, i as int),
        decreases to - i,
    {
        dst.push(src[i]);
        i = i + 1;
        proof {
            assert(dst@ =~= old(dst)@ + src@.subrange(from as int, i as int));
        }
    }
}

/// Appends all characters of `src` onto `dst`.
pub fn append_all(dst: &mut Vec<char>, src: &Vec<char>)
    ensures
        final(dst)@ == old(dst)@ + src@,
{
    append_range(dst, src, 0, src.len());
    proof {
        assert(src@.subrange(0, src@.len() as int) =~= src@);
    }
}

/// Removes leading whitespace only.
pub fn trim_front_chars(v: &Vec<char>) -> (r: Vec<char>)
    ensures
        r@ == spec_trim_front(v@),
{
    let i = ws_start(v);
    proof {
        lemma_trim_front_subrange(v@, i as int);
    }
    copy_range(v, i, v.len())
}

/// Removes trailing whitespace only.
pub fn trim_back_chars(v: &Vec<char>) -> (r: Vec<char>)
    ensures
        r@ == spec_trim_back(v@),
{
    let mut j: usize = v.len();
    while j > 0 && is_ws(v[j - 1])
        invariant
            j <= v@.len(),
            forall|k: int| j <= k < v@.len() ==> spec_is_ws(v@[k]),
        decreases j,
    {
        j = j - 1;
    }
    proof {
        lemma_trim_back_subrange(v@, j as int);
    }
    copy_range(v, 0, j)
}

// ---------------------------------------------------------------------------
// Character edits on strings.
// ---------------------------------------------------------------------------

/// The string with `c` inserted at character position `i`.
pub fn insert_char_str(s: &str, i: usize, c: char) -> (r: String)
    requires
        i <= s@.len(),
    ensures
        r@ == s@.insert(i as int, c),
{
    let mut v = str_chars(s);
    v.insert(i, c);
    chars_to_string(&v)
}

/// The string with the character at position `i` removed.
pub fn remove_char_str(s: &str, i: usize) -> (r: String)
    requires
        i < s@.len(),
    ensures
        r@ == s@.remove(i as int),
{
    let mut v = str_chars(s);
    v.remove(i);
    chars_to_string(&v)
}

/// The string with `c` appended.
pub fn push_char_str(s: &str, c: char) -> (r: String)
    ensures
        r@ == s@.push(c),
{
    let mut v = str_chars(s);
    v.push(c);
    chars_to_string(&v)
}

/// The string with its last character removed; the empty string stays empty.
pub fn pop_char_str(s: &str) -> (r: String)
    ensures
        r@ == if s@.len() > 0 {
            s@.drop_last()
        } else {
            s@
        },
{
    let mut v = str_chars(s);
    if v.len() > 0 {
        let _ = v.pop();
        proof {
            assert(v@ =~= s@.drop_last());
        }
    }
    chars_to_string(&v)
}

// ---------------------------------------------------------------------------
// Counting display lines.
// ---------------------------------------------------------------------------

/// How many times `c` occurs in `s`.
pub open spec fn spec_count_char(s: Seq<char>, c: char) -> int
    decreases s.len(),
{
    if s.len() == 0 {
        0
    } else {
        spec_count_char(s.drop_last(), c) + if s.last() == c {
            1int
        } else {
            0int
        }
    }
}

pub proof fn lemma_count_char_bounds(s: Seq<char>, c: char)
    ensures
        0 <= spec_count_char(s, c) <= s.len(),
    decreases s.len(),
{
    if s.len() > 0 {
        lemma_count_char_bounds(s.drop_last(), c);
    }
}

/// How many display lines a string occupies: its newline-separated segments,
/// with no extra segment after a trailing newline, and none at all for the
/// empty string.
pub open spec fn spec_line_count(s: Seq<char>) -> int {
    if s.len() == 0 {
        0
    } else {
        spec_count_char(s, '\n') + if s.last() == '\n' {
            0int
        } else {
            1int
        }
    }
}

pub proof fn lemma_line_count_bounds(s: Seq<char>)
    ensures
        0 <= spec_line_count(s) <= s.len(),
{
    if s.len() > 0 {
        lemma_count_char_bounds(s.drop_last(), '\n');
    }
}

/// Counts the display lines of one string.
pub fn line_count(s: &str) -> (r: usize)
    ensures
        r == spec_line_count(s@),
{
    let v = str_chars(s);
    let n = v.len();
    if n == 0 {
        return 0;
    }
    let mut cnt: usize = 0;
    let mut i: usize = 0;
    while i < n
        invariant
            i <= n,
            n == v@.len(),
            v@ == s@,
            cnt == spec_count_char(v@.subrange(0, i as int), '\n'),
            cnt <= i,
        decreases n - i,
    {
        let ghost pre = v@.subrange(0, i as int);
        let ghost cur = v@.subrange(0, i + 1);
        proof {
            assert(cur.drop_last() =~= pre);
            assert(cur.last() == v@[i as int]);
        }
        if v[i] == '\n' {
            cnt = cnt + 1;
        }
        i = i + 1;
    }
    proof {
        assert(v@.subrange(0, n as int) =~= v@);
    }
    if v[n - 1] == '\n' {
        cnt
    } else {
        proof {
            lemma_count_char_bounds(v@.drop_last(), '\n');
            assert(spec_count_char(v@, '\n') <= n - 1);
        }
        cnt + 1
    }
}

// ---------------------------------------------------------------------------
// Decimal renderings of integers.
// ---------------------------------------------------------------------------

/// The digit character for a value in `0..10`.
pub open spec fn spec_digit_char(d: int) -> char {
    if d == 0 {
        '0'
    } else if d == 1 {
        '1'
    } else if d == 2 {
        '2'
    } else if d == 3 {
        '3'
    } else if d == 4 {
        '4'
    } else if d == 5 {
        '5'
    } else if d == 6 {
        '6'
    } else if d == 7 {
        '7'
    } else if d == 8 {
        '8'
    } else {
        '9'
    }
}

/// The decimal rendering of a non-negative integer, most significant digit
/// first.
pub open spec fn spec_udec(n: int) -> Seq<char>
    decreases n,
{
    if n < 10 {
        seq![spec_digit_char(n)]
    } else {
        spec_udec(n / 10).push(spec_digit_char(n % 10))
    }
}

/// The decimal rendering of an integer, with a leading `-` when negative.
pub open spec fn spec_dec(n: int) -> Seq<char> {
    if n < 0 {
        seq!['-'] + spec_udec(-n)
    } else {
        spec_udec(n)
    }
}

/// Relies on `i64`'s `Display`: integers format as their decimal digits,
/// preceded by `-` when negative.
#[verifier::external_body]
pub(crate) fn i64_to_string(n: i64) -> (r: String)
    ensures
        r@ == spec_dec(n as int),
{
    n.to_string()
}

/// Relies on `usize`'s `Display`: integers format as their decimal digits.
#[verifier::external_body]
pub(crate) fn usize_to_string(n: usize) -> (r: String)
    ensures
        r@ == spec_udec(n as int),
{
    n.to_string()
}

// ---------------------------------------------------------------------------
// Finding the first occurrence of a character.
// ---------------------------------------------------------------------------

/// Index of the first occurrence of `c` in `s`, or `s.len()` if `c` does not
/// occur.
pub open spec fn spec_find(s: Seq<char>, c: char) -> int
    decreases s.len(),
{
    if s.len() == 0 {
        0
    } else if s[0] == c {
        0
    } else {
        1 + spec_find(s.drop_first(), c)
    }
}

pub proof fn lemma_find_characterize(s: Seq<char>, c: char, i: int)
    requires
        0 <= i <= s.len(),
        forall|k: int| 0 <= k < i ==> s[k] != c,
        i == s.len() || s[i] == c,
    ensures
        spec_find(s, c) == i,
    decreases i,
{
    if i == 0 {
    } else {
        let t = s.drop_first();
        assert(forall|k: int| 0 <= k < i - 1 ==> t[k] != c);
        lemma_find_characterize(t, c, i - 1);
    }
}

/// Basic bounds and meaning of `spec_find`.
pub proof fn lemma_find_props(s: Seq<char>, c: char)
    ensures
        0 <= spec_find(s, c) <= s.len(),
        spec_find(s, c) < s.len() ==> s[spec_find(s, c)] == c,
        forall|k: int| 0 <= k < spec_find(s, c) ==> s[k] != c,
    decreases s.len(),
{
    if s.len() > 0 && s[0] != c {
        let t = s.drop_first();
        lemma_find_props(t, c);
        assert(forall|k: int| 1 <= k < spec_find(s, c) ==> s[k] == t[k - 1] && t[k - 1] != c);
    }
}

/// Finds the first occurrence of `c` in `v`.
pub fn find_char(v: &Vec<char>, c: char) -> (r: usize)
    ensures
        r == spec_find(v@, c),
        r <= v@.len(),
{
    let mut i: usize = 0;
    while i < v.len() && v[i] != c
        invariant
            i <= v@.len(),
            forall|k: int| 0 <= k < i ==> v@[k] != c,
        decreases v@.len() - i,
    {
        i = i + 1;
    }
    proof {
        lemma_find_characterize(v@, c, i as int);
    }
    i
}

} // verus!
