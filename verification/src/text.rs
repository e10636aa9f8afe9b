//! Character-level helpers for the textual formats this crate reads.
//!
//! Strings are modelled as sequences of characters.  The specification
//! functions here say what trimming, splitting and suffix tests mean on such
//! sequences; the executable functions compute them on `&str`.

use vstd::prelude::*;
use vstd::std_specs::iter::IteratorSpec;

verus! {

/// Whether `c` is white space: a character with the Unicode property
/// `White_Space`.
pub open spec fn is_whitespace(c: char) -> bool {
    ||| '\u{9}' <= c <= '\u{d}'
    ||| c == ' '
    ||| c == '\u{85}'
    ||| c == '\u{a0}'
    ||| c == '\u{1680}'
    ||| '\u{2000}' <= c <= '\u{200a}'
    ||| c == '\u{2028}'
    ||| c == '\u{2029}'
    ||| c == '\u{202f}'
    ||| c == '\u{205f}'
    ||| c == '\u{3000}'
}

/// How many white space characters `s` starts with.
pub open spec fn leading_whitespace(s: Seq<char>) -> nat
    decreases s.len(),
{
    if s.len() > 0 && is_whitespace(s[0]) {
        1 + leading_whitespace(s.drop_first())
    } else {
        0
    }
}

/// How many white space characters `s` ends with.
pub open spec fn trailing_whitespace(s: Seq<char>) -> nat
    decreases s.len(),
{
    if s.len() > 0 && is_whitespace(s.last()) {
        1 + trailing_whitespace(s.drop_last())
    } else {
        0
    }
}

/// `s` without its leading white space.
pub open spec fn trim_start(s: Seq<char>) -> Seq<char> {
    s.skip(leading_whitespace(s) as int)
}

/// `s` without its trailing white space.
pub open spec fn trim_end(s: Seq<char>) -> Seq<char> {
    s.take(s.len() - trailing_whitespace(s))
}

/// `s` without leading and trailing white space.
pub open spec fn trim(s: Seq<char>) -> Seq<char> {
    trim_end(trim_start(s))
}

/// Whether every character of `s` is white space.
pub open spec fn is_blank(s: Seq<char>) -> bool {
    forall|i: int| 0 <= i < s.len() ==> is_whitespace(#[trigger] s[i])
}

/// The index of the first `sep` in `s`, or the length of `s` where `s` holds
/// no `sep`.
pub open spec fn find(s: Seq<char>, sep: char) -> int
    decreases s.len(),
{
    if s.len() == 0 || s[0] == sep {
        0
    } else {
        1 + find(s.drop_first(), sep)
    }
}

/// The pieces of `s` between occurrences of `sep`, in order.  A sequence
/// without `sep` is a single piece, the empty one too.
pub open spec fn split(s: Seq<char>, sep: char) -> Seq<Seq<char>>
    decreases s.len(),
{
    let i = find(s, sep);
    if 0 <= i < s.len() {
        seq![s.take(i)] + split(s.skip(i + 1), sep)
    } else {
        seq![s]
    }
}

/// The white space test, computed.
pub fn is_whitespace_char(c: char) -> (r: bool)
    ensures
        r == is_whitespace(c),
{
    ('\u{9}' <= c && c <= '\u{d}') || c == ' ' || c == '\u{85}' || c == '\u{a0}' || c
        == '\u{1680}' || ('\u{2000}' <= c && c <= '\u{200a}') || c == '\u{2028}' || c
        == '\u{2029}' || c == '\u{202f}' || c == '\u{205f}' || c == '\u{3000}'
}

/// Collects the characters of `s` into a vector.
pub(crate) fn chars_of(s: &str) -> (v: Vec<char>)
    ensures
        v@ == s@,
{
    let mut v: Vec<char> = Vec::new();
    for c in it: s.chars()
        invariant
            it.seq() == s@,
            v@ == s@.take(it.index() as int),
    {
        v.push(c);
    }
    v
}

/// `leading_whitespace(s)` is `k` where the first `k` characters of `s` are
/// white space and the next one, if any, is not.
pub proof fn lemma_leading_whitespace(s: Seq<char>, k: int)
    requires
        0 <= k <= s.len(),
        forall|i: int| 0 <= i < k ==> is_whitespace(#[trigger] s[i]),
        k < s.len() ==> !is_whitespace(s[k]),
    ensures
        leading_whitespace(s) == k,
    decreases k,
{
    if k > 0 {
        lemma_leading_whitespace(s.drop_first(), k - 1);
    }
}

/// `trailing_whitespace(s)` is `k` where the last `k` characters of `s` are
/// white space and the one before them, if any, is not.
pub proof fn lemma_trailing_whitespace(s: Seq<char>, k: int)
    requires
        0 <= k <= s.len(),
        forall|i: int| s.len() - k <= i < s.len() ==> is_whitespace(#[trigger] s[i]),
        k < s.len() ==> !is_whitespace(s[s.len() - k - 1]),
    ensures
        trailing_whitespace(s) == k,
    decreases k,
{
    if k > 0 {
        lemma_trailing_whitespace(s.drop_last(), k - 1);
    }
}

/// `find(s, sep)` is `k` where none of the first `k` characters of `s` is
/// `sep` and the next one, if any, is.
pub proof fn lemma_find(s: Seq<char>, sep: char, k: int)
    requires
        0 <= k <= s.len(),
        forall|i: int| 0 <= i < k ==> #[trigger] s[i] != sep,
        k < s.len() ==> s[k] == sep,
    ensures
        find(s, sep) == k,
    decreases k,
{
    if k > 0 {
        lemma_find(s.drop_first(), sep, k - 1);
    }
}

/// The bounds of `trim` applied to the characters of `cs` from `lo` up to
/// `hi`: the trimmed text is `cs[r.0..r.1]`.
pub(crate) fn trim_bounds(cs: &Vec<char>, lo: usize, hi: usize) -> (r: (usize, usize))
    requires
        lo <= hi <= cs.len(),
    ensures
        lo <= r.0 <= r.1 <= hi,
        cs@.subrange(r.0 as int, r.1 as int) == trim(cs@.subrange(lo as int, hi as int)),
{
    let ghost s = cs@.subrange(lo as int, hi as int);
    let mut a: usize = lo;
    while a < hi && is_whitespace_char(cs[a])
        invariant
            lo <= a <= hi <= cs.len(),
            forall|i: int| lo <= i < a ==> is_whitespace(#[trigger] cs@[i]),
        decreases hi - a,
    {
        a += 1;
    }
    let mut b: usize = hi;
    while a < b && is_whitespace_char(cs[b - 1])
        invariant
            lo <= a <= b <= hi <= cs.len(),
            forall|i: int| b <= i < hi ==> is_whitespace(#[trigger] cs@[i]),
        decreases b - a,
    {
        b -= 1;
    }
    proof {
        lemma_leading_whitespace(s, a - lo);
        lemma_trailing_whitespace(trim_start(s), hi - b);
    }
    (a, b)
}

/// The position of the first `sep` among the characters of `cs` from `lo` up
/// to `hi`, or `hi` where there is none.
pub(crate) fn find_char(cs: &Vec<char>, lo: usize, hi: usize, sep: char) -> (r: usize)
    requires
        lo <= hi <= cs.len(),
    ensures
        lo <= r <= hi,
        r - lo == find(cs@.subrange(lo as int, hi as int), sep),
{
    let ghost s = cs@.subrange(lo as int, hi as int);
    let mut i: usize = lo;
    while i < hi && cs[i] != sep
        invariant
            lo <= i <= hi <= cs.len(),
            forall|j: int| lo <= j < i ==> #[trigger] cs@[j] != sep,
        decreases hi - i,
    {
        i += 1;
    }
    proof {
        lemma_find(s, sep, i - lo);
    }
    i
}

/// Whether `a` without its first `skip_a` characters is `b` without its
/// first `skip_b` characters.
pub(crate) fn tails_equal(a: &str, skip_a: usize, b: &str, skip_b: usize) -> (r: bool)
    requires
        skip_a <= a@.len(),
        skip_b <= b@.len(),
    ensures
        r == (a@.skip(skip_a as int) == b@.skip(skip_b as int)),
{
    let mut ia = a.chars();
    let mut na: usize = 0;
    while na < skip_a
        invariant
            na <= skip_a <= a@.len(),
            ia.remaining() == a@.skip(na as int),
        decreases skip_a - na,
    {
        let _ = ia.next();
        na += 1;
    }
    let mut ib = b.chars();
    let mut nb: usize = 0;
    while nb < skip_b
        invariant
            nb <= skip_b <= b@.len(),
            ib.remaining() == b@.skip(nb as int),
        decreases skip_b - nb,
    {
        let _ = ib.next();
        nb += 1;
    }
    let ghost ta = a@.skip(skip_a as int);
    let ghost tb = b@.skip(skip_b as int);
    let ghost mut n: int = 0;
    loop
        invariant
            0 <= n <= ta.len(),
            n <= tb.len(),
            ta == a@.skip(skip_a as int),
            tb == b@.skip(skip_b as int),
            ia.remaining() == ta.skip(n),
            ib.remaining() == tb.skip(n),
            ta.take(n) == tb.take(n),
        decreases ta.len() - n,
    {
        let ca = ia.next();
        let cb = ib.next();
        match (ca, cb) {
            (None, None) => {
                proof {
                    assert(ta.take(n) == ta);
                    assert(tb.take(n) == tb);
                }
                return true;
            },
            (Some(x), Some(y)) => {
                if x != y {
                    return false;
                }
                proof {
                    n = n + 1;
                }
            },
            _ => {
                return false;
            },
        }
    }
}

/// Whether `a` and `b` hold the same characters.
pub fn str_equal(a: &str, b: &str) -> (r: bool)
    ensures
        r == (a@ == b@),
{
    proof {
        assert(a@.skip(0) == a@);
        assert(b@.skip(0) == b@);
    }
    tails_equal(a, 0, b, 0)
}

/// Whether `s` ends with `suffix`.
pub fn ends_with(s: &str, suffix: &str) -> (r: bool)
    ensures
        r == suffix@.is_suffix_of(s@),
{
    let n: usize = s.unicode_len();
    let m: usize = suffix.unicode_len();
    if m > n {
        return false;
    }
    proof {
        assert(suffix@.skip(0) == suffix@);
    }
    tails_equal(s, n - m, suffix, 0)
}

} // verus!
