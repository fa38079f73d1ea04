//! Unit names accepted at the API boundary, and the text rules for
//! unit-annotated values such as `"0.254mm"` or `"1GHz"`.
//!
//! A value string is split into its numeric part and its unit suffix
//! ([`split_number_suffix`]); the suffix then names the unit (the
//! `from_suffix` functions). Bare numbers take the canonical unit of the
//! quantity (mil, Hz, F, H, °C).

use vstd::prelude::*;

use crate::text::{
    all_white, chars_of, is_white, lemma_trim_ignores_surrounding_white, lower_seq, range_eq,
    to_lower, trim, trim_bounds, trim_start, trim_start_index,
};

verus! {

/// Length units accepted at the API boundary.
#[derive(Debug, Clone, Copy, PartialEq, Eq, Structural)]
pub enum LengthUnit {
    Mils,
    Mm,
    Inches,
    Um,
}

/// Frequency units accepted at the API boundary.
#[derive(Debug, Clone, Copy, PartialEq, Eq, Structural)]
pub enum FreqUnit {
    Hz,
    KHz,
    MHz,
    GHz,
}

/// Capacitance units.
#[derive(Debug, Clone, Copy, PartialEq, Eq, Structural)]
pub enum CapUnit {
    F,
    UF,
    NF,
    PF,
}

/// Inductance units.
#[derive(Debug, Clone, Copy, PartialEq, Eq, Structural)]
pub enum IndUnit {
    H,
    MH,
    UH,
    NH,
}

/// Resistance units.
#[derive(Debug, Clone, Copy, PartialEq, Eq, Structural)]
pub enum ResUnit {
    MOhm,
    Ohm,
    KOhm,
    MOhmMega,
}

/// Temperature units.
#[derive(Debug, Clone, Copy, PartialEq, Eq, Structural)]
pub enum TempUnit {
    Celsius,
    Fahrenheit,
}

/// Error returned when parsing a unit-annotated value from a string.
#[derive(Debug, Clone, PartialEq, Eq)]
pub enum UnitParseError {
    /// The numeric part of the input is not a number; holds the input.
    InvalidNumber(String),
    /// The unit suffix is not one the quantity accepts; holds the input.
    UnknownSuffix(String),
    /// The number overflows to an infinite value.
    NotFinite,
}

/// The human-readable message of a unit parse error.
pub open spec fn parse_error_message(e: UnitParseError) -> Seq<char> {
    match e {
        UnitParseError::InvalidNumber(s) => "invalid number in '"@ + s@ + "'"@,
        UnitParseError::UnknownSuffix(s) => "unknown unit suffix in '"@ + s@ + "'"@,
        UnitParseError::NotFinite => "value is not finite"@,
    }
}

impl UnitParseError {
    /// The human-readable message of the error.
    pub fn message(&self) -> (text: String)
        ensures
            text@ == parse_error_message(*self),
    {
        match self {
            UnitParseError::InvalidNumber(s) => {
                let mut text = String::from_str("invalid number in '");
                text.append(s.as_str());
                text.append("'");
                text
            },
            UnitParseError::UnknownSuffix(s) => {
                let mut text = String::from_str("unknown unit suffix in '");
                text.append(s.as_str());
                text.append("'");
                text
            },
            UnitParseError::NotFinite => String::from_str("value is not finite"),
        }
    }
}

// ── The numeric prefix ───────────────────────────────────────────────
pub open spec fn is_digit(c: char) -> bool {
    '0' <= c && c <= '9'
}

pub open spec fn is_sign(c: char) -> bool {
    c == '-' || c == '+'
}

/// Number of consecutive ASCII digits of `t` starting at `i`.
pub open spec fn digit_run(t: Seq<char>, i: int) -> int
    decreases t.len() - i,
{
    if 0 <= i < t.len() && is_digit(t[i]) {
        1 + digit_run(t, i + 1)
    } else {
        0
    }
}

/// Length of the numeric prefix of `t`: an optional sign, digits, an
/// optional `.` with digits, and an exponent (`e`/`E`, optional sign,
/// digits) that counts only when at least one exponent digit follows.
pub open spec fn number_len(t: Seq<char>) -> int {
    let i1: int = if t.len() > 0 && is_sign(t[0]) {
        1
    } else {
        0
    };
    let i2 = i1 + digit_run(t, i1);
    let i3 = if i2 < t.len() && t[i2] == '.' {
        i2 + 1 + digit_run(t, i2 + 1)
    } else {
        i2
    };
    if i3 < t.len() && (t[i3] == 'e' || t[i3] == 'E') {
        let j = if i3 + 1 < t.len() && is_sign(t[i3 + 1]) {
            i3 + 2
        } else {
            i3 + 1
        };
        if j < t.len() && is_digit(t[j]) {
            j + digit_run(t, j)
        } else {
            i3
        }
    } else {
        i3
    }
}

/// The numeric part of a unit-annotated value: the numeric prefix of the
/// trimmed input.
pub open spec fn number_part(s: Seq<char>) -> Seq<char> {
    trim(s).subrange(0, number_len(trim(s)))
}

/// The suffix part of a unit-annotated value: what follows the numeric
/// prefix of the trimmed input, without leading white space.
pub open spec fn suffix_part(s: Seq<char>) -> Seq<char> {
    trim_start(trim(s).subrange(number_len(trim(s)), trim(s).len() as int))
}

fn is_ascii_digit(c: char) -> (d: bool)
    ensures
        d == is_digit(c),
{
    '0' <= c && c <= '9'
}

/// End of the run of digits of `w` that starts at `i`.
fn skip_digits(w: &Vec<char>, i: usize) -> (j: usize)
    requires
        i <= w.len(),
    ensures
        j == i + digit_run(w@, i as int),
        j <= w.len(),
{
    let mut j = i;
    while j < w.len() && is_ascii_digit(w[j])
        invariant
            i <= j <= w.len(),
            j + digit_run(w@, j as int) == i + digit_run(w@, i as int),
        decreases w.len() - j,
    {
        j = j + 1;
    }
    j
}

/// Split `"3.14mm"` into `("3.14", "mm")`.
///
/// Handles leading/trailing white space, signs, and scientific notation
/// (`1e3`, `1.5E-6`). The suffix is trimmed of leading white space so that
/// `"100 mil"` also splits as `("100", "mil")`.
pub fn split_number_suffix(s: &str) -> (parts: (&str, &str))
    ensures
        parts.0@ == number_part(s@),
        parts.1@ == suffix_part(s@),
{
    let v = chars_of(s);
    let (a, b) = trim_bounds(&v, 0, v.len());
    assert(v@.subrange(0, v@.len() as int) =~= s@);
    let ghost t = trim(s@);
    let mut w: Vec<char> = Vec::new();
    let mut k = a;
    while k < b
        invariant
            a <= k <= b <= v.len(),
            w@ == v@.subrange(a as int, k as int),
        decreases b - k,
    {
        w.push(v[k]);
        k = k + 1;
        assert(w@ =~= v@.subrange(a as int, k as int));
    }
    assert(w@ == t);
    let n = w.len();
    let mut i: usize = 0;
    if i < n && (w[i] == '-' || w[i] == '+') {
        i = 1;
    }
    i = skip_digits(&w, i);
    if i < n && w[i] == '.' {
        i = skip_digits(&w, i + 1);
    }
    if i < n && (w[i] == 'e' || w[i] == 'E') {
        let mut j = i + 1;
        if j < n && (w[j] == '-' || w[j] == '+') {
            j = j + 1;
        }
        if j < n && is_ascii_digit(w[j]) {
            i = skip_digits(&w, j);
        }
    }
    assert(i == number_len(t));
    let c = trim_start_index(&w, i, n);
    proof {
        assert(v@.subrange(a as int, a + i) =~= t.subrange(0, i as int));
        assert(v@.subrange(a + c, b as int) =~= w@.subrange(c as int, n as int));
    }
    (s.substring_char(a, a + i), s.substring_char(a + c, b))
}

// ── Unit suffixes ────────────────────────────────────────────────────
/// `s` with the micro sign (U+00B5) replaced by `u`.
pub open spec fn micro_to_u(s: Seq<char>) -> Seq<char> {
    Seq::new(s.len(), |i: int| if s[i] == '\u{B5}' { 'u' } else { s[i] })
}

/// The length unit a suffix names (case-insensitive); a bare number is in mils.
pub open spec fn length_unit_of(suffix: Seq<char>) -> Option<LengthUnit> {
    let l = lower_seq(suffix);
    if l == ""@ || l == "mil"@ || l == "mils"@ {
        Some(LengthUnit::Mils)
    } else if l == "mm"@ {
        Some(LengthUnit::Mm)
    } else if l == "in"@ || l == "inch"@ || l == "inches"@ {
        Some(LengthUnit::Inches)
    } else if l == "um"@ || l == "\u{B5}m"@ {
        Some(LengthUnit::Um)
    } else {
        None
    }
}

/// The frequency unit a suffix names (case-insensitive); a bare number is in Hz.
pub open spec fn freq_unit_of(suffix: Seq<char>) -> Option<FreqUnit> {
    let l = lower_seq(suffix);
    if l == ""@ || l == "hz"@ {
        Some(FreqUnit::Hz)
    } else if l == "khz"@ {
        Some(FreqUnit::KHz)
    } else if l == "mhz"@ {
        Some(FreqUnit::MHz)
    } else if l == "ghz"@ {
        Some(FreqUnit::GHz)
    } else {
        None
    }
}

/// The capacitance unit a suffix names (case-insensitive, `µ` read as `u`);
/// a bare number is in farads.
pub open spec fn cap_unit_of(suffix: Seq<char>) -> Option<CapUnit> {
    let l = lower_seq(micro_to_u(suffix));
    if l == ""@ || l == "f"@ {
        Some(CapUnit::F)
    } else if l == "uf"@ {
        Some(CapUnit::UF)
    } else if l == "nf"@ {
        Some(CapUnit::NF)
    } else if l == "pf"@ {
        Some(CapUnit::PF)
    } else {
        None
    }
}

/// The inductance unit a suffix names (case-insensitive, `µ` read as `u`);
/// a bare number is in henries.
pub open spec fn ind_unit_of(suffix: Seq<char>) -> Option<IndUnit> {
    let l = lower_seq(micro_to_u(suffix));
    if l == ""@ || l == "h"@ {
        Some(IndUnit::H)
    } else if l == "mh"@ {
        Some(IndUnit::MH)
    } else if l == "uh"@ {
        Some(IndUnit::UH)
    } else if l == "nh"@ {
        Some(IndUnit::NH)
    } else {
        None
    }
}

/// The resistance unit a suffix names (case-sensitive, since `m` and `M`
/// differ): `Ohm`/`ohm`/`Ω`, `mOhm`/`mohm`/`mΩ`, `kOhm`/`kohm`/`k`/`kΩ`,
/// `MOhm`/`M`/`MΩ`; a bare number is in ohms.
pub open spec fn res_unit_of(suffix: Seq<char>) -> Option<ResUnit> {
    if suffix == ""@ || suffix == "Ohm"@ || suffix == "ohm"@ || suffix == "\u{3A9}"@ {
        Some(ResUnit::Ohm)
    } else if suffix == "mOhm"@ || suffix == "mohm"@ || suffix == "m\u{3A9}"@ {
        Some(ResUnit::MOhm)
    } else if suffix == "kOhm"@ || suffix == "kohm"@ || suffix == "k"@ || suffix == "k\u{3A9}"@ {
        Some(ResUnit::KOhm)
    } else if suffix == "MOhm"@ || suffix == "M"@ || suffix == "M\u{3A9}"@ {
        Some(ResUnit::MOhmMega)
    } else {
        None
    }
}

/// The temperature unit a suffix names (case-sensitive); a bare number is in °C.
pub open spec fn temp_unit_of(suffix: Seq<char>) -> Option<TempUnit> {
    if suffix == ""@ || suffix == "C"@ || suffix == "\u{B0}C"@ || suffix == "degC"@ {
        Some(TempUnit::Celsius)
    } else if suffix == "F"@ || suffix == "\u{B0}F"@ || suffix == "degF"@ {
        Some(TempUnit::Fahrenheit)
    } else {
        None
    }
}

/// Lower-cased characters of a suffix, with `µ` read as `u` when asked.
fn normalise(suffix: &str, micro: bool) -> (l: Vec<char>)
    ensures
        micro ==> l@ == lower_seq(micro_to_u(suffix@)),
        !micro ==> l@ == lower_seq(suffix@),
{
    let v = chars_of(suffix);
    let mut l: Vec<char> = Vec::new();
    let mut i: usize = 0;
    while i < v.len()
        invariant
            v@ == suffix@,
            i <= v.len(),
            micro ==> l@ == lower_seq(micro_to_u(suffix@)).subrange(0, i as int),
            !micro ==> l@ == lower_seq(suffix@).subrange(0, i as int),
        decreases v.len() - i,
    {
        let c = if micro && v[i] == '\u{B5}' {
            'u'
        } else {
            v[i]
        };
        l.push(to_lower(c));
        i = i + 1;
        proof {
            if micro {
                assert(l@ =~= lower_seq(micro_to_u(suffix@)).subrange(0, i as int));
            } else {
                assert(l@ =~= lower_seq(suffix@).subrange(0, i as int));
            }
        }
    }
    proof {
        if micro {
            assert(l@ =~= lower_seq(micro_to_u(suffix@)));
        } else {
            assert(l@ =~= lower_seq(suffix@));
        }
    }
    l
}

impl LengthUnit {
    /// The unit a length suffix names, or `None` for an unknown suffix.
    pub fn from_suffix(suffix: &str) -> (unit: Option<LengthUnit>)
        ensures
            unit == length_unit_of(suffix@),
    {
        let l = normalise(suffix, false);
        let n = l.len();
        assert(l@.subrange(0, n as int) =~= l@);
        if range_eq(&l, 0, n, "") || range_eq(&l, 0, n, "mil") || range_eq(&l, 0, n, "mils") {
            Some(LengthUnit::Mils)
        } else if range_eq(&l, 0, n, "mm") {
            Some(LengthUnit::Mm)
        } else if range_eq(&l, 0, n, "in") || range_eq(&l, 0, n, "inch") || range_eq(
            &l,
            0,
            n,
            "inches",
        ) {
            Some(LengthUnit::Inches)
        } else if range_eq(&l, 0, n, "um") || range_eq(&l, 0, n, "\u{B5}m") {
            Some(LengthUnit::Um)
        } else {
            None
        }
    }
}

impl FreqUnit {
    /// The unit a frequency suffix names, or `None` for an unknown suffix.
    pub fn from_suffix(suffix: &str) -> (unit: Option<FreqUnit>)
        ensures
            unit == freq_unit_of(suffix@),
    {
        let l = normalise(suffix, false);
        let n = l.len();
        assert(l@.subrange(0, n as int) =~= l@);
        if range_eq(&l, 0, n, "") || range_eq(&l, 0, n, "hz") {
            Some(FreqUnit::Hz)
        } else if range_eq(&l, 0, n, "khz") {
            Some(FreqUnit::KHz)
        } else if range_eq(&l, 0, n, "mhz") {
            Some(FreqUnit::MHz)
        } else if range_eq(&l, 0, n, "ghz") {
            Some(FreqUnit::GHz)
        } else {
            None
        }
    }
}

impl CapUnit {
    /// The unit a capacitance suffix names, or `None` for an unknown suffix.
    pub fn from_suffix(suffix: &str) -> (unit: Option<CapUnit>)
        ensures
            unit == cap_unit_of(suffix@),
    {
        let l = normalise(suffix, true);
        let n = l.len();
        assert(l@.subrange(0, n as int) =~= l@);
        if range_eq(&l, 0, n, "") || range_eq(&l, 0, n, "f") {
            Some(CapUnit::F)
        } else if range_eq(&l, 0, n, "uf") {
            Some(CapUnit::UF)
        } else if range_eq(&l, 0, n, "nf") {
            Some(CapUnit::NF)
        } else if range_eq(&l, 0, n, "pf") {
            Some(CapUnit::PF)
        } else {
            None
        }
    }
}

impl IndUnit {
    /// The unit an inductance suffix names, or `None` for an unknown suffix.
    pub fn from_suffix(suffix: &str) -> (unit: Option<IndUnit>)
        ensures
            unit == ind_unit_of(suffix@),
    {
        let l = normalise(suffix, true);
        let n = l.len();
        assert(l@.subrange(0, n as int) =~= l@);
        if range_eq(&l, 0, n, "") || range_eq(&l, 0, n, "h") {
            Some(IndUnit::H)
        } else if range_eq(&l, 0, n, "mh") {
            Some(IndUnit::MH)
        } else if range_eq(&l, 0, n, "uh") {
            Some(IndUnit::UH)
        } else if range_eq(&l, 0, n, "nh") {
            Some(IndUnit::NH)
        } else {
            None
        }
    }
}

impl ResUnit {
    /// The unit a resistance suffix names, or `None` for an unknown suffix.
    pub fn from_suffix(suffix: &str) -> (unit: Option<ResUnit>)
        ensures
            unit == res_unit_of(suffix@),
    {
        let l = chars_of(suffix);
        let n = l.len();
        assert(l@.subrange(0, n as int) =~= l@);
        if range_eq(&l, 0, n, "") || range_eq(&l, 0, n, "Ohm") || range_eq(&l, 0, n, "ohm")
            || range_eq(&l, 0, n, "\u{3A9}") {
            Some(ResUnit::Ohm)
        } else if range_eq(&l, 0, n, "mOhm") || range_eq(&l, 0, n, "mohm") || range_eq(
            &l,
            0,
            n,
            "m\u{3A9}",
        ) {
            Some(ResUnit::MOhm)
        } else if range_eq(&l, 0, n, "kOhm") || range_eq(&l, 0, n, "kohm") || range_eq(
            &l,
            0,
            n,
            "k",
        ) || range_eq(&l, 0, n, "k\u{3A9}") {
            Some(ResUnit::KOhm)
        } else if range_eq(&l, 0, n, "MOhm") || range_eq(&l, 0, n, "M") || range_eq(
            &l,
            0,
            n,
            "M\u{3A9}",
        ) {
            Some(ResUnit::MOhmMega)
        } else {
            None
        }
    }
}

impl TempUnit {
    /// The unit a temperature suffix names, or `None` for an unknown suffix.
    pub fn from_suffix(suffix: &str) -> (unit: Option<TempUnit>)
        ensures
            unit == temp_unit_of(suffix@),
    {
        let l = chars_of(suffix);
        let n = l.len();
        assert(l@.subrange(0, n as int) =~= l@);
        if range_eq(&l, 0, n, "") || range_eq(&l, 0, n, "C") || range_eq(&l, 0, n, "\u{B0}C")
            || range_eq(&l, 0, n, "degC") {
            Some(TempUnit::Celsius)
        } else if range_eq(&l, 0, n, "F") || range_eq(&l, 0, n, "\u{B0}F") || range_eq(
            &l,
            0,
            n,
            "degF",
        ) {
            Some(TempUnit::Fahrenheit)
        } else {
            None
        }
    }
}

/// A bare number takes the canonical unit of every quantity: when the
/// trimmed input is all number, the suffix is empty, and an empty suffix
/// names mils, hertz, farads, henries, degrees Celsius and ohms.
pub proof fn lemma_bare_number_takes_canonical_unit(s: Seq<char>)
    requires
        number_len(trim(s)) == trim(s).len(),
    ensures
        suffix_part(s) == Seq::<char>::empty(),
        length_unit_of(suffix_part(s)) == Some(LengthUnit::Mils),
        freq_unit_of(suffix_part(s)) == Some(FreqUnit::Hz),
        cap_unit_of(suffix_part(s)) == Some(CapUnit::F),
        ind_unit_of(suffix_part(s)) == Some(IndUnit::H),
        temp_unit_of(suffix_part(s)) == Some(TempUnit::Celsius),
        res_unit_of(suffix_part(s)) == Some(ResUnit::Ohm),
{
    let t = trim(s);
    let e = Seq::<char>::empty();
    assert(t.subrange(t.len() as int, t.len() as int) =~= e);
    assert(trim_start(e) == e);
    reveal_strlit("");
    assert(lower_seq(e) =~= ""@);
    assert(lower_seq(micro_to_u(e)) =~= ""@);
    assert(e =~= ""@);
}

/// `d` is made of the decimal digits `0`–`9` only (possibly empty).
pub open spec fn decimal_digits(d: Seq<char>) -> bool {
    forall|i: int| 0 <= i < d.len() ==> '0' <= d[i] && d[i] <= '9'
}

/// `g` is an optional sign: empty, `+` or `-`.
pub open spec fn optional_sign(g: Seq<char>) -> bool {
    g.len() == 0 || (g.len() == 1 && (g[0] == '+' || g[0] == '-'))
}

/// `f` is an optional fraction: empty, or `.` followed by decimal digits.
pub open spec fn optional_fraction(f: Seq<char>) -> bool {
    f.len() == 0 || (f[0] == '.' && decimal_digits(f.drop_first()))
}

/// `u` can follow a number as its unit: it holds no white space, and it
/// does not begin with a digit.
pub open spec fn unit_text(u: Seq<char>) -> bool {
    &&& forall|i: int| 0 <= i < u.len() ==> !is_white(u[i])
    &&& (u.len() == 0 || !('0' <= u[0] && u[0] <= '9'))
}

proof fn lemma_digit_run_exact(t: Seq<char>, i: int, k: int)
    requires
        0 <= i,
        0 <= k,
        i + k <= t.len(),
        forall|j: int| i <= j < i + k ==> '0' <= t[j] && t[j] <= '9',
        i + k == t.len() || !('0' <= t[i + k] && t[i + k] <= '9'),
    ensures
        digit_run(t, i) == k,
    decreases k,
{
    if k > 0 {
        lemma_digit_run_exact(t, i + 1, k - 1);
    }
}

/// A white-space-free first and last character leave a text untrimmed.
proof fn lemma_trim_noop(t: Seq<char>)
    requires
        t.len() > 0 ==> !is_white(t[0]) && !is_white(t.last()),
    ensures
        trim(t) == t,
{
    assert(trim_start(t) == t);
}

/// A number in scientific notation keeps its whole exponent: for an
/// optional sign, mantissa digits, an optional fraction, `e` or `E`, an
/// optional exponent sign and one or more exponent digits, followed by a
/// unit, the numeric part is everything up to the last exponent digit and
/// the suffix is the unit.
pub proof fn lemma_split_keeps_whole_exponent(
    sign: Seq<char>,
    m: Seq<char>,
    f: Seq<char>,
    e: char,
    esign: Seq<char>,
    d: Seq<char>,
    u: Seq<char>,
)
    requires
        optional_sign(sign),
        decimal_digits(m),
        optional_fraction(f),
        e == 'e' || e == 'E',
        optional_sign(esign),
        d.len() >= 1,
        decimal_digits(d),
        unit_text(u),
    ensures
        number_part(sign + m + f + seq![e] + esign + d + u) == sign + m + f + seq![e] + esign + d,
        suffix_part(sign + m + f + seq![e] + esign + d + u) == u,
{
    let num = sign + m + f + seq![e] + esign + d;
    let s = num + u;
    let p = sign.len() as int;
    let q = p + m.len() + f.len();
    let r = q + 1 + esign.len();
    let n = r + d.len();
    assert(num.len() == n);
    assert(s.len() == n + u.len());
    assert forall|k: int| 0 <= k < p implies s[k] == sign[k] by {}
    assert forall|k: int| p <= k < p + m.len() implies s[k] == m[k - p] by {}
    assert forall|k: int| p + m.len() <= k < q implies s[k] == f[k - p - m.len()] by {}
    assert(s[q] == e);
    assert forall|k: int| q + 1 <= k < r implies s[k] == esign[k - q - 1] by {}
    assert forall|k: int| r <= k < n implies s[k] == d[k - r] by {}
    assert forall|k: int| n <= k < s.len() implies s[k] == u[k - n] by {}
    assert(!is_white(s[0]));
    assert(!is_white(s.last()));
    lemma_trim_noop(s);
    let i1: int = if s.len() > 0 && is_sign(s[0]) { 1 } else { 0 };
    assert(i1 == p);
    lemma_digit_run_exact(s, p, m.len() as int);
    let i2 = p + m.len();
    if f.len() > 0 {
        assert(s[i2] == '.');
        assert forall|k: int| i2 + 1 <= k < q implies '0' <= s[k] && s[k] <= '9' by {
            assert(s[k] == f.drop_first()[k - i2 - 1]);
        }
        lemma_digit_run_exact(s, i2 + 1, f.len() - 1);
    } else {
        assert(s[i2] == e);
    }
    let j: int = if q + 1 < s.len() && is_sign(s[q + 1]) { q + 2 } else { q + 1 };
    assert(j == r);
    lemma_digit_run_exact(s, r, d.len() as int);
    assert(number_len(s) == n);
    assert(s.subrange(0, n) =~= num);
    assert(s.subrange(n, s.len() as int) =~= u);
    if u.len() > 0 {
        assert(trim_start(u) == u);
    } else {
        assert(trim_start(u) == u);
    }
}

/// An `e` or `E` with no exponent digits after it (past an optional sign)
/// is not part of the number: it starts the suffix.
pub proof fn lemma_split_exponent_needs_digits(
    sign: Seq<char>,
    m: Seq<char>,
    f: Seq<char>,
    e: char,
    esign: Seq<char>,
    u: Seq<char>,
)
    requires
        optional_sign(sign),
        m.len() >= 1,
        decimal_digits(m),
        optional_fraction(f),
        e == 'e' || e == 'E',
        optional_sign(esign),
        unit_text(u),
        u.len() > 0 ==> u[0] != '+' && u[0] != '-',
    ensures
        number_part(sign + m + f + seq![e] + esign + u) == sign + m + f,
        suffix_part(sign + m + f + seq![e] + esign + u) == seq![e] + esign + u,
{
    let num = sign + m + f;
    let rest = seq![e] + esign + u;
    let s = sign + m + f + seq![e] + esign + u;
    assert(s =~= num + rest);
    let p = sign.len() as int;
    let q = p + m.len() + f.len();
    let r = q + 1 + esign.len();
    assert forall|k: int| 0 <= k < p implies s[k] == sign[k] by {}
    assert forall|k: int| p <= k < p + m.len() implies s[k] == m[k - p] by {}
    assert forall|k: int| p + m.len() <= k < q implies s[k] == f[k - p - m.len()] by {}
    assert(s[q] == e);
    assert forall|k: int| q + 1 <= k < r implies s[k] == esign[k - q - 1] by {}
    assert forall|k: int| r <= k < s.len() implies s[k] == u[k - r] by {}
    assert(!is_white(s[0]));
    let z = s.len() - 1;
    if z >= r {
        assert(s[z] == u[z - r]);
    }
    assert(!is_white(s.last()));
    lemma_trim_noop(s);
    lemma_digit_run_exact(s, p, m.len() as int);
    let i2 = p + m.len();
    if f.len() > 0 {
        assert(s[i2] == '.');
        assert forall|k: int| i2 + 1 <= k < q implies '0' <= s[k] && s[k] <= '9' by {
            assert(s[k] == f.drop_first()[k - i2 - 1]);
        }
        lemma_digit_run_exact(s, i2 + 1, f.len() - 1);
    } else {
        assert(s[i2] == e);
    }
    assert(number_len(s) == q);
    assert(s.subrange(0, q) =~= num);
    assert(s.subrange(q, s.len() as int) =~= rest);
    assert(rest[0] == e);
    assert(trim_start(rest) == rest);
}

/// White space around a value does not change how it splits.
pub proof fn lemma_split_ignores_surrounding_white(w1: Seq<char>, s: Seq<char>, w2: Seq<char>)
    requires
        all_white(w1),
        all_white(w2),
    ensures
        number_part(w1 + s + w2) == number_part(s),
        suffix_part(w1 + s + w2) == suffix_part(s),
{
    lemma_trim_ignores_surrounding_white(w1, s, w2);
}

/// A number without exponent ends where its digits end: for an optional
/// sign, one or more digits and an optional fraction, followed by a unit that starts
/// neither with `.` nor with `e`/`E`, the numeric part is the number and
/// the suffix is the unit.
pub proof fn lemma_split_plain_number(sign: Seq<char>, m: Seq<char>, f: Seq<char>, u: Seq<char>)
    requires
        optional_sign(sign),
        m.len() >= 1,
        decimal_digits(m),
        optional_fraction(f),
        unit_text(u),
        u.len() > 0 ==> u[0] != '.' && u[0] != 'e' && u[0] != 'E',
    ensures
        number_part(sign + m + f + u) == sign + m + f,
        suffix_part(sign + m + f + u) == u,
{
    let num = sign + m + f;
    let s = num + u;
    let p = sign.len() as int;
    let q = p + m.len() + f.len();
    assert(num.len() == q);
    assert forall|k: int| 0 <= k < p implies s[k] == sign[k] by {}
    assert forall|k: int| p <= k < p + m.len() implies s[k] == m[k - p] by {}
    assert forall|k: int| p + m.len() <= k < q implies s[k] == f[k - p - m.len()] by {}
    assert forall|k: int| q <= k < s.len() implies s[k] == u[k - q] by {}
    if s.len() > 0 {
        assert(!is_white(s[0]));
        let z = s.len() - 1;
        if z >= q {
            assert(s[z] == u[z - q]);
        } else if z >= p + m.len() {
            let w = z - p - m.len();
            assert(s[z] == f[w]);
            if w > 0 {
                assert(f[w] == f.drop_first()[w - 1]);
            }
        } else if z >= p {
            assert(s[z] == m[z - p]);
        } else {
            assert(s[z] == sign[z]);
        }
        assert(!is_white(s.last()));
    }
    lemma_trim_noop(s);
    lemma_digit_run_exact(s, p, m.len() as int);
    let i2 = p + m.len();
    if f.len() > 0 {
        assert(s[i2] == '.');
        assert forall|k: int| i2 + 1 <= k < q implies '0' <= s[k] && s[k] <= '9' by {
            assert(s[k] == f.drop_first()[k - i2 - 1]);
        }
        lemma_digit_run_exact(s, i2 + 1, f.len() - 1);
    }
    if u.len() > 0 {
        assert(s[q] == u[0]);
    }
    assert(number_len(s) == q);
    assert(s.subrange(0, q) =~= num);
    assert(s.subrange(q, s.len() as int) =~= u);
    assert(trim_start(u) == u);
}

// ── What each unit stands for ────────────────────────────────────────
/// The SI prefix of a power of ten: `k`, `M`, `G` up, `m`, `u` (micro),
/// `n`, `p` down, nothing for one.
pub open spec fn si_prefix(exponent: int) -> Seq<char> {
    if exponent == 3 {
        seq!['k']
    } else if exponent == 6 {
        seq!['M']
    } else if exponent == 9 {
        seq!['G']
    } else if exponent == -3 {
        seq!['m']
    } else if exponent == -6 {
        seq!['u']
    } else if exponent == -9 {
        seq!['n']
    } else if exponent == -12 {
        seq!['p']
    } else {
        Seq::<char>::empty()
    }
}

/// Power of ten of a frequency unit, in hertz.
pub open spec fn freq_exponent(u: FreqUnit) -> int {
    match u {
        FreqUnit::Hz => 0,
        FreqUnit::KHz => 3,
        FreqUnit::MHz => 6,
        FreqUnit::GHz => 9,
    }
}

/// Power of ten of a capacitance unit, in farads.
pub open spec fn cap_exponent(u: CapUnit) -> int {
    match u {
        CapUnit::F => 0,
        CapUnit::UF => -6,
        CapUnit::NF => -9,
        CapUnit::PF => -12,
    }
}

/// Power of ten of an inductance unit, in henries.
pub open spec fn ind_exponent(u: IndUnit) -> int {
    match u {
        IndUnit::H => 0,
        IndUnit::MH => -3,
        IndUnit::UH => -6,
        IndUnit::NH => -9,
    }
}

/// Power of ten of a resistance unit, in ohms.
pub open spec fn res_exponent(u: ResUnit) -> int {
    match u {
        ResUnit::MOhm => -3,
        ResUnit::Ohm => 0,
        ResUnit::KOhm => 3,
        ResUnit::MOhmMega => 6,
    }
}

/// A frequency unit is named by its SI prefix and `Hz`.
pub proof fn lemma_freq_suffix_is_si(u: FreqUnit)
    ensures
        freq_unit_of(si_prefix(freq_exponent(u)) + seq!['H', 'z']) == Some(u),
{
    reveal_strlit("");
    reveal_strlit("hz");
    reveal_strlit("khz");
    reveal_strlit("mhz");
    reveal_strlit("ghz");
    let t = si_prefix(freq_exponent(u)) + seq!['H', 'z'];
    match u {
        FreqUnit::Hz => {
            assert(lower_seq(t) =~= "hz"@);
            assert(freq_unit_of(t) == Some(u));
        },
        FreqUnit::KHz => {
            assert(lower_seq(t) =~= "khz"@);
            assert(freq_unit_of(t) == Some(u));
        },
        FreqUnit::MHz => {
            assert(lower_seq(t) =~= "mhz"@);
            assert("mhz"@[0] != "khz"@[0]);
            assert(freq_unit_of(t) == Some(u));
        },
        FreqUnit::GHz => {
            assert(lower_seq(t) =~= "ghz"@);
            assert("ghz"@[0] != "khz"@[0]);
            assert("ghz"@[0] != "mhz"@[0]);
            assert(freq_unit_of(t) == Some(u));
        },
    }
}

/// A capacitance unit is named by its SI prefix and `F`.
pub proof fn lemma_cap_suffix_is_si(u: CapUnit)
    ensures
        cap_unit_of(si_prefix(cap_exponent(u)) + seq!['F']) == Some(u),
{
    reveal_strlit("");
    reveal_strlit("f");
    reveal_strlit("uf");
    reveal_strlit("nf");
    reveal_strlit("pf");
    let t = si_prefix(cap_exponent(u)) + seq!['F'];
    match u {
        CapUnit::F => {
            assert(lower_seq(micro_to_u(t)) =~= "f"@);
            assert(cap_unit_of(t) == Some(u));
        },
        CapUnit::UF => {
            assert(lower_seq(micro_to_u(t)) =~= "uf"@);
            assert(cap_unit_of(t) == Some(u));
        },
        CapUnit::NF => {
            assert(lower_seq(micro_to_u(t)) =~= "nf"@);
            assert("nf"@[0] != "uf"@[0]);
            assert(cap_unit_of(t) == Some(u));
        },
        CapUnit::PF => {
            assert(lower_seq(micro_to_u(t)) =~= "pf"@);
            assert("pf"@[0] != "uf"@[0]);
            assert("pf"@[0] != "nf"@[0]);
            assert(cap_unit_of(t) == Some(u));
        },
    }
}

/// An inductance unit is named by its SI prefix and `H`.
pub proof fn lemma_ind_suffix_is_si(u: IndUnit)
    ensures
        ind_unit_of(si_prefix(ind_exponent(u)) + seq!['H']) == Some(u),
{
    reveal_strlit("");
    reveal_strlit("h");
    reveal_strlit("mh");
    reveal_strlit("uh");
    reveal_strlit("nh");
    let t = si_prefix(ind_exponent(u)) + seq!['H'];
    match u {
        IndUnit::H => {
            assert(lower_seq(micro_to_u(t)) =~= "h"@);
            assert(ind_unit_of(t) == Some(u));
        },
        IndUnit::MH => {
            assert(lower_seq(micro_to_u(t)) =~= "mh"@);
            assert(ind_unit_of(t) == Some(u));
        },
        IndUnit::UH => {
            assert(lower_seq(micro_to_u(t)) =~= "uh"@);
            assert("uh"@[0] != "mh"@[0]);
            assert(ind_unit_of(t) == Some(u));
        },
        IndUnit::NH => {
            assert(lower_seq(micro_to_u(t)) =~= "nh"@);
            assert("nh"@[0] != "mh"@[0]);
            assert("nh"@[0] != "uh"@[0]);
            assert(ind_unit_of(t) == Some(u));
        },
    }
}

/// A resistance unit is named by its SI prefix and `Ohm`, milli (`m`) and
/// mega (`M`) told apart by case.
pub proof fn lemma_res_suffix_is_si(u: ResUnit)
    ensures
        res_unit_of(si_prefix(res_exponent(u)) + seq!['O', 'h', 'm']) == Some(u),
{
    reveal_strlit("");
    reveal_strlit("Ohm");
    reveal_strlit("ohm");
    reveal_strlit("mOhm");
    reveal_strlit("kOhm");
    reveal_strlit("MOhm");
    reveal_strlit("\u{3A9}");
    reveal_strlit("mohm");
    reveal_strlit("m\u{3A9}");
    reveal_strlit("kohm");
    reveal_strlit("k");
    reveal_strlit("k\u{3A9}");
    reveal_strlit("M");
    reveal_strlit("M\u{3A9}");
    let t = si_prefix(res_exponent(u)) + seq!['O', 'h', 'm'];
    match u {
        ResUnit::Ohm => {
            assert(t =~= "Ohm"@);
            assert(res_unit_of(t) == Some(u));
        },
        ResUnit::MOhm => {
            assert(t =~= "mOhm"@);
            assert(res_unit_of(t) == Some(u));
        },
        ResUnit::KOhm => {
            assert(t =~= "kOhm"@);
            assert("kOhm"@[0] != "mOhm"@[0]);
            assert("kOhm"@[0] != "mohm"@[0]);
            assert(res_unit_of(t) == Some(u));
        },
        ResUnit::MOhmMega => {
            assert(t =~= "MOhm"@);
            assert("MOhm"@[0] != "mOhm"@[0]);
            assert("MOhm"@[0] != "mohm"@[0]);
            assert("MOhm"@[0] != "kOhm"@[0]);
            assert("MOhm"@[0] != "kohm"@[0]);
            assert(res_unit_of(t) == Some(u));
        },
    }
}

/// Power of ten of a metric length unit, in metres (`None` for mils and
/// inches).
pub open spec fn length_metric_exponent(u: LengthUnit) -> Option<int> {
    match u {
        LengthUnit::Mm => Some(-3),
        LengthUnit::Um => Some(-6),
        LengthUnit::Mils | LengthUnit::Inches => None,
    }
}

/// A metric length unit is named by its SI prefix and `m`.
pub proof fn lemma_metric_length_suffix_is_si(u: LengthUnit, e: int)
    requires
        length_metric_exponent(u) == Some(e),
    ensures
        length_unit_of(si_prefix(e) + seq!['m']) == Some(u),
{
    reveal_strlit("");
    reveal_strlit("mil");
    reveal_strlit("mils");
    reveal_strlit("mm");
    reveal_strlit("in");
    reveal_strlit("inch");
    reveal_strlit("inches");
    reveal_strlit("um");
    let t = si_prefix(e) + seq!['m'];
    match u {
        LengthUnit::Mm => {
            assert(lower_seq(t) =~= "mm"@);
            assert(length_unit_of(t) == Some(u));
        },
        LengthUnit::Um => {
            assert(lower_seq(t) =~= "um"@);
            assert("um"@[0] != "mm"@[0]);
            assert("um"@[0] != "in"@[0]);
            assert(length_unit_of(t) == Some(u));
        },
        _ => {},
    }
}

/// The letter of a temperature scale: `C` for Celsius, `F` for Fahrenheit.
pub open spec fn scale_letter(u: TempUnit) -> char {
    match u {
        TempUnit::Celsius => 'C',
        TempUnit::Fahrenheit => 'F',
    }
}

/// A temperature unit is named by its scale letter, alone, after a degree
/// sign or after `deg`.
pub proof fn lemma_temp_suffix_is_scale_letter(u: TempUnit)
    ensures
        temp_unit_of(seq![scale_letter(u)]) == Some(u),
        temp_unit_of(seq!['\u{B0}', scale_letter(u)]) == Some(u),
        temp_unit_of(seq!['d', 'e', 'g', scale_letter(u)]) == Some(u),
{
    reveal_strlit("");
    reveal_strlit("C");
    reveal_strlit("\u{B0}C");
    reveal_strlit("degC");
    reveal_strlit("F");
    reveal_strlit("\u{B0}F");
    reveal_strlit("degF");
    match u {
        TempUnit::Celsius => {
            assert(seq![scale_letter(u)] =~= "C"@);
            assert(seq!['\u{B0}', scale_letter(u)] =~= "\u{B0}C"@);
            assert(seq!['d', 'e', 'g', scale_letter(u)] =~= "degC"@);
        },
        TempUnit::Fahrenheit => {
            assert(seq![scale_letter(u)] =~= "F"@);
            assert(seq!['\u{B0}', scale_letter(u)] =~= "\u{B0}F"@);
            assert(seq!['d', 'e', 'g', scale_letter(u)] =~= "degF"@);
            assert("F"@[0] != "C"@[0]);
            assert("\u{B0}F"@[1] != "\u{B0}C"@[1]);
            assert("degF"@[3] != "degC"@[3]);
        },
    }
}

} // verus!
