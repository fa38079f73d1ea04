//! Character-level text rules shared by the parsers: Unicode white space,
//! lower-casing, trimming, repeated prefix/suffix stripping and comparison
//! with literal patterns.
//!
//! Strings are handled through their character sequences (`s@`). The
//! parsers only ever compare a normalised string with ASCII patterns, so
//! lower-casing is stated for the characters that can turn into ASCII: the
//! letters `A`–`Z` and the Kelvin sign (U+212A, which lower-cases to `k`).
//! Every other character is kept as it is; no pattern holds such a
//! character, so keeping it decides every comparison the same way full
//! Unicode lower-casing does.

use vstd::prelude::*;

verus! {

/// The Unicode `White_Space` property (what `char::is_whitespace` tests).
pub open spec fn is_white(c: char) -> bool {
    ||| ('\u{9}' <= c && c <= '\u{D}')
    ||| c == ' '
    ||| c == '\u{85}'
    ||| c == '\u{A0}'
    ||| c == '\u{1680}'
    ||| ('\u{2000}' <= c && c <= '\u{200A}')
    ||| c == '\u{2028}'
    ||| c == '\u{2029}'
    ||| c == '\u{202F}'
    ||| c == '\u{205F}'
    ||| c == '\u{3000}'
}

/// Lower-casing of one character, for the characters that lower-case to
/// ASCII; every other character is kept.
pub open spec fn lower(c: char) -> char {
    if 'A' <= c && c <= 'Z' {
        ((c as int) + 32) as char
    } else if c == '\u{212A}' {
        'k'
    } else {
        c
    }
}

/// ASCII-only case folding, as used by `eq_ignore_ascii_case`.
pub open spec fn ascii_lower(c: char) -> char {
    if 'A' <= c && c <= 'Z' {
        ((c as int) + 32) as char
    } else {
        c
    }
}

/// A character sequence, lower-cased.
pub open spec fn lower_seq(s: Seq<char>) -> Seq<char> {
    Seq::new(s.len(), |i: int| lower(s[i]))
}

/// Two sequences are equal up to ASCII case.
pub open spec fn eq_ignore_ascii_case(a: Seq<char>, b: Seq<char>) -> bool {
    &&& a.len() == b.len()
    &&& forall|i: int| 0 <= i < a.len() ==> ascii_lower(#[trigger] a[i]) == ascii_lower(b[i])
}

/// `s` without its leading white space.
pub open spec fn trim_start(s: Seq<char>) -> Seq<char>
    decreases s.len(),
{
    if s.len() > 0 && is_white(s[0]) {
        trim_start(s.drop_first())
    } else {
        s
    }
}

/// `s` without its trailing white space.
pub open spec fn trim_end(s: Seq<char>) -> Seq<char>
    decreases s.len(),
{
    if s.len() > 0 && is_white(s.last()) {
        trim_end(s.drop_last())
    } else {
        s
    }
}

/// `s` without leading and trailing white space.
pub open spec fn trim(s: Seq<char>) -> Seq<char> {
    trim_end(trim_start(s))
}

/// `s` with every repeated occurrence of the non-empty `pat` removed from
/// its end (`str::trim_end_matches`).
pub open spec fn strip_suffixes(s: Seq<char>, pat: Seq<char>) -> Seq<char>
    decreases s.len(),
{
    if pat.len() > 0 && pat.len() <= s.len() && s.subrange(s.len() - pat.len(), s.len() as int)
        == pat {
        strip_suffixes(s.subrange(0, s.len() - pat.len()), pat)
    } else {
        s
    }
}

/// `s` with every repeated occurrence of the non-empty `pat` removed from
/// its start (`str::trim_start_matches`).
pub open spec fn strip_prefixes(s: Seq<char>, pat: Seq<char>) -> Seq<char>
    decreases s.len(),
{
    if pat.len() > 0 && pat.len() <= s.len() && s.subrange(0, pat.len() as int) == pat {
        strip_prefixes(s.subrange(pat.len() as int, s.len() as int), pat)
    } else {
        s
    }
}

/// Tests `char::is_whitespace`.
pub fn is_whitespace(c: char) -> (white: bool)
    ensures
        white == is_white(c),
{
    ('\u{9}' <= c && c <= '\u{D}') || c == ' ' || c == '\u{85}' || c == '\u{A0}' || c
        == '\u{1680}' || ('\u{2000}' <= c && c <= '\u{200A}') || c == '\u{2028}' || c
        == '\u{2029}' || c == '\u{202F}' || c == '\u{205F}' || c == '\u{3000}'
}

/// Lower-cases one character (see [`lower`]).
pub fn to_lower(c: char) -> (l: char)
    ensures
        l == lower(c),
{
    if 'A' <= c && c <= 'Z' {
        let u = c as u8;
        (u + 32) as char
    } else if c == '\u{212A}' {
        'k'
    } else {
        c
    }
}

/// ASCII-only case folding of one character.
pub fn to_ascii_lower(c: char) -> (l: char)
    ensures
        l == ascii_lower(c),
{
    if 'A' <= c && c <= 'Z' {
        let u = c as u8;
        (u + 32) as char
    } else {
        c
    }
}

/// The characters of a string.
pub fn chars_of(s: &str) -> (v: Vec<char>)
    ensures
        v@ == s@,
{
    let n = s.unicode_len();
    let mut v: Vec<char> = Vec::new();
    let mut i: usize = 0;
    while i < n
        invariant
            n == s@.len(),
            i <= n,
            v@ == s@.subrange(0, i as int),
        decreases n - i,
    {
        v.push(s.get_char(i));
        i = i + 1;
    }
    v
}

/// The characters of a string, lower-cased.
pub fn lower_chars(s: &str) -> (l: Vec<char>)
    ensures
        l@ == lower_seq(s@),
{
    let v = chars_of(s);
    let l = lower_range(&v, 0, v.len());
    assert(v@.subrange(0, v@.len() as int) =~= v@);
    l
}

/// The characters of `v[lo..hi]`, lower-cased.
pub fn lower_range(v: &Vec<char>, lo: usize, hi: usize) -> (l: Vec<char>)
    requires
        lo <= hi <= v.len(),
    ensures
        l@ == lower_seq(v@.subrange(lo as int, hi as int)),
{
    let mut l: Vec<char> = Vec::new();
    let mut i: usize = lo;
    while i < hi
        invariant
            lo <= i <= hi <= v.len(),
            l@ == lower_seq(v@.subrange(lo as int, i as int)),
        decreases hi - i,
    {
        l.push(to_lower(v[i]));
        i = i + 1;
        assert(l@ =~= lower_seq(v@.subrange(lo as int, i as int)));
    }
    l
}

/// Start of `v[lo..hi]` once its leading white space is skipped.
pub fn trim_start_index(v: &Vec<char>, lo: usize, hi: usize) -> (a: usize)
    requires
        lo <= hi <= v.len(),
    ensures
        lo <= a <= hi,
        v@.subrange(a as int, hi as int) == trim_start(v@.subrange(lo as int, hi as int)),
{
    let mut a = lo;
    while a < hi && is_whitespace(v[a])
        invariant
            lo <= a <= hi <= v.len(),
            trim_start(v@.subrange(a as int, hi as int)) == trim_start(
                v@.subrange(lo as int, hi as int),
            ),
        decreases hi - a,
    {
        assert(v@.subrange(a as int, hi as int).drop_first() =~= v@.subrange(
            a + 1,
            hi as int,
        ));
        a = a + 1;
    }
    a
}

/// End of `v[lo..hi]` once its trailing white space is dropped.
pub fn trim_end_index(v: &Vec<char>, lo: usize, hi: usize) -> (b: usize)
    requires
        lo <= hi <= v.len(),
    ensures
        lo <= b <= hi,
        v@.subrange(lo as int, b as int) == trim_end(v@.subrange(lo as int, hi as int)),
{
    let mut b = hi;
    while b > lo && is_whitespace(v[b - 1])
        invariant
            lo <= b <= hi <= v.len(),
            trim_end(v@.subrange(lo as int, b as int)) == trim_end(
                v@.subrange(lo as int, hi as int),
            ),
        decreases b - lo,
    {
        assert(v@.subrange(lo as int, b as int).drop_last() =~= v@.subrange(
            lo as int,
            b - 1,
        ));
        b = b - 1;
    }
    b
}

/// Bounds of `v[lo..hi]` with white space trimmed from both ends.
pub fn trim_bounds(v: &Vec<char>, lo: usize, hi: usize) -> (ab: (usize, usize))
    requires
        lo <= hi <= v.len(),
    ensures
        lo <= ab.0 <= ab.1 <= hi,
        v@.subrange(ab.0 as int, ab.1 as int) == trim(v@.subrange(lo as int, hi as int)),
{
    let a = trim_start_index(v, lo, hi);
    let b = trim_end_index(v, a, hi);
    (a, b)
}

/// Whether `v[lo..hi]` holds exactly the characters of `pat`.
pub fn range_eq(v: &Vec<char>, lo: usize, hi: usize, pat: &str) -> (eq: bool)
    requires
        lo <= hi <= v.len(),
    ensures
        eq == (v@.subrange(lo as int, hi as int) == pat@),
{
    let n = pat.unicode_len();
    if hi - lo != n {
        return false;
    }
    let mut i: usize = 0;
    while i < n
        invariant
            n == pat@.len(),
            hi - lo == n,
            lo <= hi <= v.len(),
            i <= n,
            forall|k: int| 0 <= k < i ==> v@[lo + k] == pat@[k],
        decreases n - i,
    {
        if v[lo + i] != pat.get_char(i) {
            assert(v@.subrange(lo as int, hi as int)[i as int] != pat@[i as int]);
            return false;
        }
        i = i + 1;
    }
    assert(v@.subrange(lo as int, hi as int) =~= pat@);
    true
}

/// End of `v[lo..hi]` once every repeated `pat` is stripped from its end.
pub fn strip_suffixes_index(v: &Vec<char>, lo: usize, hi: usize, pat: &str) -> (b: usize)
    requires
        lo <= hi <= v.len(),
        pat@.len() > 0,
    ensures
        lo <= b <= hi,
        v@.subrange(lo as int, b as int) == strip_suffixes(
            v@.subrange(lo as int, hi as int),
            pat@,
        ),
{
    let n = pat.unicode_len();
    let mut b = hi;
    while b - lo >= n && range_eq(v, b - n, b, pat)
        invariant
            n == pat@.len(),
            n > 0,
            lo <= b <= hi <= v.len(),
            strip_suffixes(v@.subrange(lo as int, b as int), pat@) == strip_suffixes(
                v@.subrange(lo as int, hi as int),
                pat@,
            ),
        decreases b - lo,
    {
        let ghost s = v@.subrange(lo as int, b as int);
        assert(s.subrange(s.len() - n, s.len() as int) =~= v@.subrange(b - n, b as int));
        assert(s.subrange(0, s.len() - n) =~= v@.subrange(lo as int, b - n));
        b = b - n;
    }
    proof {
        let s = v@.subrange(lo as int, b as int);
        if n <= s.len() {
            assert(s.subrange(s.len() - n, s.len() as int) =~= v@.subrange(b - n, b as int));
        }
    }
    b
}

/// Start of `v[lo..hi]` once every repeated `pat` is stripped from its start.
pub fn strip_prefixes_index(v: &Vec<char>, lo: usize, hi: usize, pat: &str) -> (a: usize)
    requires
        lo <= hi <= v.len(),
        pat@.len() > 0,
    ensures
        lo <= a <= hi,
        v@.subrange(a as int, hi as int) == strip_prefixes(
            v@.subrange(lo as int, hi as int),
            pat@,
        ),
{
    let n = pat.unicode_len();
    let mut a = lo;
    while hi - a >= n && range_eq(v, a, a + n, pat)
        invariant
            n == pat@.len(),
            n > 0,
            lo <= a <= hi <= v.len(),
            strip_prefixes(v@.subrange(a as int, hi as int), pat@) == strip_prefixes(
                v@.subrange(lo as int, hi as int),
                pat@,
            ),
        decreases hi - a,
    {
        let ghost s = v@.subrange(a as int, hi as int);
        assert(s.subrange(0, n as int) =~= v@.subrange(a as int, a + n));
        assert(s.subrange(n as int, s.len() as int) =~= v@.subrange(a + n, hi as int));
        a = a + n;
    }
    proof {
        let s = v@.subrange(a as int, hi as int);
        if n <= s.len() {
            assert(s.subrange(0, n as int) =~= v@.subrange(a as int, a + n));
        }
    }
    a
}

/// Whether two strings are equal up to ASCII case (`str::eq_ignore_ascii_case`).
pub fn str_eq_ignore_ascii_case(a: &str, b: &str) -> (eq: bool)
    ensures
        eq == eq_ignore_ascii_case(a@, b@),
{
    let n = a.unicode_len();
    if n != b.unicode_len() {
        return false;
    }
    let mut i: usize = 0;
    while i < n
        invariant
            n == a@.len(),
            n == b@.len(),
            i <= n,
            forall|k: int| 0 <= k < i ==> ascii_lower(#[trigger] a@[k]) == ascii_lower(b@[k]),
        decreases n - i,
    {
        if to_ascii_lower(a.get_char(i)) != to_ascii_lower(b.get_char(i)) {
            return false;
        }
        i = i + 1;
    }
    true
}

/// Equality up to ASCII case is an equivalence: symmetric and transitive.
pub proof fn lemma_eq_ignore_ascii_case_equivalence(a: Seq<char>, b: Seq<char>, c: Seq<char>)
    ensures
        eq_ignore_ascii_case(a, b) ==> eq_ignore_ascii_case(b, a),
        eq_ignore_ascii_case(a, b) && eq_ignore_ascii_case(b, c) ==> eq_ignore_ascii_case(a, c),
{
    if eq_ignore_ascii_case(a, b) {
        assert forall|i: int| 0 <= i < b.len() implies ascii_lower(#[trigger] b[i]) == ascii_lower(
            a[i],
        ) by {
            assert(ascii_lower(a[i]) == ascii_lower(b[i]));
        }
        if eq_ignore_ascii_case(b, c) {
            assert forall|i: int| 0 <= i < a.len() implies ascii_lower(#[trigger] a[i])
                == ascii_lower(c[i]) by {
                assert(ascii_lower(a[i]) == ascii_lower(b[i]));
                assert(ascii_lower(b[i]) == ascii_lower(c[i]));
            }
        }
    }
}

/// Every character of `w` is white space.
pub open spec fn all_white(w: Seq<char>) -> bool {
    forall|i: int| 0 <= i < w.len() ==> is_white(w[i])
}

proof fn lemma_trim_start_skips_white(w: Seq<char>, s: Seq<char>)
    requires
        all_white(w),
    ensures
        trim_start(w + s) == trim_start(s),
    decreases w.len(),
{
    if w.len() > 0 {
        assert((w + s)[0] == w[0]);
        assert((w + s).drop_first() =~= w.drop_first() + s);
        lemma_trim_start_skips_white(w.drop_first(), s);
    } else {
        assert(w + s =~= s);
    }
}

proof fn lemma_trim_end_skips_white(s: Seq<char>, w: Seq<char>)
    requires
        all_white(w),
    ensures
        trim_end(s + w) == trim_end(s),
    decreases w.len(),
{
    if w.len() > 0 {
        assert((s + w).last() == w.last());
        assert((s + w).drop_last() =~= s + w.drop_last());
        lemma_trim_end_skips_white(s, w.drop_last());
    } else {
        assert(s + w =~= s);
    }
}

proof fn lemma_trim_start_before_white(s: Seq<char>, w: Seq<char>)
    requires
        all_white(w),
    ensures
        trim_start(s).len() > 0 ==> trim_start(s + w) == trim_start(s) + w,
        trim_start(s).len() == 0 ==> trim_start(s + w).len() == 0,
    decreases s.len(),
{
    if s.len() == 0 {
        assert(s + w =~= w);
        lemma_trim_start_skips_white(w, Seq::<char>::empty());
        assert(w + Seq::<char>::empty() =~= w);
    } else if is_white(s[0]) {
        assert((s + w)[0] == s[0]);
        assert((s + w).drop_first() =~= s.drop_first() + w);
        lemma_trim_start_before_white(s.drop_first(), w);
    } else {
        assert((s + w)[0] == s[0]);
    }
}

/// White space around a text does not change what trimming keeps.
pub proof fn lemma_trim_ignores_surrounding_white(w1: Seq<char>, s: Seq<char>, w2: Seq<char>)
    requires
        all_white(w1),
        all_white(w2),
    ensures
        trim(w1 + s + w2) == trim(s),
{
    assert(w1 + s + w2 =~= w1 + (s + w2));
    lemma_trim_start_skips_white(w1, s + w2);
    lemma_trim_start_before_white(s, w2);
    if trim_start(s).len() > 0 {
        lemma_trim_end_skips_white(trim_start(s), w2);
    }
}

} // verus!
