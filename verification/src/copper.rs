//! Copper weights, plating thicknesses and etch profiles.
//!
//! Thicknesses are held exactly, in hundredths of a mil, under the Saturn /
//! industry rule of 1.4 mil per oz/ft² (the IPC-4562 nominal is 1.37 mil;
//! the difference is inside the ±10% foil tolerance). Every other unit is
//! derived from these values.

use vstd::prelude::*;

use crate::text::{
    chars_of, is_white, lower_range, lower_seq, range_eq, strip_suffixes, strip_suffixes_index, trim,
    trim_bounds, trim_start,
};

verus! {

/// Standard copper weight options (oz/ft²).
#[derive(Debug, Clone, Copy, PartialEq, Eq, Structural)]
pub enum CopperWeight {
    /// 0.25 oz/ft²
    Oz025,
    /// 0.5 oz/ft²
    Oz05,
    /// 1 oz/ft²
    Oz1,
    /// 1.5 oz/ft²
    Oz15,
    /// 2 oz/ft²
    Oz2,
    /// 2.5 oz/ft²
    Oz25,
    /// 3 oz/ft²
    Oz3,
    /// 4 oz/ft²
    Oz4,
    /// 5 oz/ft²
    Oz5,
}

/// The weight of a copper option in quarter ounces per square foot.
pub open spec fn copper_quarter_oz(w: CopperWeight) -> nat {
    match w {
        CopperWeight::Oz025 => 1,
        CopperWeight::Oz05 => 2,
        CopperWeight::Oz1 => 4,
        CopperWeight::Oz15 => 6,
        CopperWeight::Oz2 => 8,
        CopperWeight::Oz25 => 10,
        CopperWeight::Oz3 => 12,
        CopperWeight::Oz4 => 16,
        CopperWeight::Oz5 => 20,
    }
}

/// Copper thickness in hundredths of a mil: 1.4 mil per oz/ft², that is
/// 35 hundredths of a mil per quarter ounce.
pub open spec fn copper_centimils(w: CopperWeight) -> nat {
    35 * copper_quarter_oz(w)
}

/// The copper weight that a text names: the input is trimmed and
/// lower-cased, every trailing `oz` is removed, and the rest, trimmed again,
/// must be one of the listed weights.
pub open spec fn copper_weight_of(s: Seq<char>) -> Option<CopperWeight> {
    let t = trim(strip_suffixes(lower_seq(trim(s)), "oz"@));
    if t == "0.25"@ {
        Some(CopperWeight::Oz025)
    } else if t == "0.5"@ {
        Some(CopperWeight::Oz05)
    } else if t == "1"@ {
        Some(CopperWeight::Oz1)
    } else if t == "1.5"@ {
        Some(CopperWeight::Oz15)
    } else if t == "2"@ {
        Some(CopperWeight::Oz2)
    } else if t == "2.5"@ {
        Some(CopperWeight::Oz25)
    } else if t == "3"@ {
        Some(CopperWeight::Oz3)
    } else if t == "4"@ {
        Some(CopperWeight::Oz4)
    } else if t == "5"@ {
        Some(CopperWeight::Oz5)
    } else {
        None
    }
}

/// A copper weight text that names no known weight; holds the text.
#[derive(Debug, Clone, PartialEq, Eq)]
pub struct UnknownCopperWeight(pub String);

impl CopperWeight {
    /// Nominal copper thickness in hundredths of a mil (140 for 1 oz/ft²).
    /// This is the single canonical value; every other unit derives from it.
    pub fn thickness_centimils(self) -> (t: u32)
        ensures
            t == copper_centimils(self),
            t == 35 * copper_quarter_oz(self),
    {
        match self {
            CopperWeight::Oz025 => 35,
            CopperWeight::Oz05 => 70,
            CopperWeight::Oz1 => 140,
            CopperWeight::Oz15 => 210,
            CopperWeight::Oz2 => 280,
            CopperWeight::Oz25 => 350,
            CopperWeight::Oz3 => 420,
            CopperWeight::Oz4 => 560,
            CopperWeight::Oz5 => 700,
        }
    }

    /// Parse from a string like "1oz", "0.5oz", "2.5".
    pub fn from_str_oz(s: &str) -> (w: Result<CopperWeight, UnknownCopperWeight>)
        ensures
            copper_weight_of(s@) matches Some(x) ==> w == Ok::<CopperWeight, UnknownCopperWeight>(
                x,
            ),
            copper_weight_of(s@) is None ==> (w matches Err(e) && e.0@ == s@),
    {
        let v = chars_of(s);
        let (a, b) = trim_bounds(&v, 0, v.len());
        assert(v@.subrange(0, v@.len() as int) =~= s@);
        let l = lower_range(&v, a, b);
        proof {
            reveal_strlit("oz");
        }
        let e = strip_suffixes_index(&l, 0, l.len(), "oz");
        assert(l@.subrange(0, l@.len() as int) =~= l@);
        let (c, d) = trim_bounds(&l, 0, e);
        if range_eq(&l, c, d, "0.25") {
            Ok(CopperWeight::Oz025)
        } else if range_eq(&l, c, d, "0.5") {
            Ok(CopperWeight::Oz05)
        } else if range_eq(&l, c, d, "1") {
            Ok(CopperWeight::Oz1)
        } else if range_eq(&l, c, d, "1.5") {
            Ok(CopperWeight::Oz15)
        } else if range_eq(&l, c, d, "2") {
            Ok(CopperWeight::Oz2)
        } else if range_eq(&l, c, d, "2.5") {
            Ok(CopperWeight::Oz25)
        } else if range_eq(&l, c, d, "3") {
            Ok(CopperWeight::Oz3)
        } else if range_eq(&l, c, d, "4") {
            Ok(CopperWeight::Oz4)
        } else if range_eq(&l, c, d, "5") {
            Ok(CopperWeight::Oz5)
        } else {
            Err(UnknownCopperWeight(String::from_str(s)))
        }
    }
}

/// The character of a decimal digit `d` (0–9).
pub open spec fn digit_char(d: nat) -> char {
    if d == 0 { '0' } else if d == 1 { '1' } else if d == 2 { '2' } else if d == 3 { '3' }
    else if d == 4 { '4' } else if d == 5 { '5' } else if d == 6 { '6' } else if d == 7 { '7' }
    else if d == 8 { '8' } else { '9' }
}

/// `n` written in decimal, without leading zeros.
pub open spec fn decimal(n: nat) -> Seq<char>
    decreases n,
{
    if n < 10 {
        seq![digit_char(n)]
    } else {
        decimal(n / 10) + seq![digit_char(n % 10)]
    }
}

/// A weight of `q` quarter ounces per square foot written in ounces: the
/// whole ounces in decimal, then `.25`, `.5` or `.75` for the remainder.
pub open spec fn ounce_text(q: nat) -> Seq<char> {
    decimal(q / 4) + if q % 4 == 0 {
        Seq::<char>::empty()
    } else if q % 4 == 1 {
        seq!['.', '2', '5']
    } else if q % 4 == 2 {
        seq!['.', '5']
    } else {
        seq!['.', '7', '5']
    }
}

/// The decimal form of a number is digits only, and has two or more of
/// them from ten on.
pub proof fn lemma_decimal_digits(n: nat)
    ensures
        decimal(n).len() >= 1,
        n >= 10 ==> decimal(n).len() >= 2,
        forall|i: int| 0 <= i < decimal(n).len() ==> '0' <= #[trigger] decimal(n)[i] && decimal(n)[i] <= '9',
    decreases n,
{
    if n >= 10 {
        lemma_decimal_digits(n / 10);
        let a = decimal(n / 10);
        assert forall|i: int| 0 <= i < decimal(n).len() implies '0' <= #[trigger] decimal(n)[i] && decimal(n)[i] <= '9' by {
            if i < a.len() {
                assert(decimal(n)[i] == a[i]);
            }
        }
    }
}

/// An ounce text is made of digits and `.`, begins and ends with a digit,
/// and has a digit second from ten ounces on.
pub proof fn lemma_ounce_text_shape(q: nat)
    ensures
        ounce_text(q).len() >= 1,
        forall|i: int| 0 <= i < ounce_text(q).len() ==> ('0' <= #[trigger] ounce_text(q)[i] && ounce_text(q)[i] <= '9') || ounce_text(q)[i] == '.',
        '0' <= ounce_text(q)[0] && ounce_text(q)[0] <= '9',
        '0' <= ounce_text(q).last() && ounce_text(q).last() <= '9',
        q >= 40 ==> ounce_text(q).len() >= 2 && '0' <= ounce_text(q)[1] && ounce_text(q)[1] <= '9',
        q < 40 ==> ounce_text(q) == seq![digit_char(q / 4)] + (if q % 4 == 0 {
            Seq::<char>::empty()
        } else if q % 4 == 1 {
            seq!['.', '2', '5']
        } else if q % 4 == 2 {
            seq!['.', '5']
        } else {
            seq!['.', '7', '5']
        }),
{
    lemma_decimal_digits(q / 4);
    let d = decimal(q / 4);
    let t = ounce_text(q);
    assert forall|i: int| 0 <= i < t.len() implies ('0' <= #[trigger] t[i] && t[i] <= '9') || t[i] == '.' by {
        if i < d.len() {
            assert(t[i] == d[i]);
        }
    }
    assert(t[0] == d[0]);
    if q % 4 == 0 {
        assert(t =~= d);
    }
    if q >= 40 {
        assert(t[1] == d[1]);
    }
}

/// Ounce texts of different weights differ (checked against weights under
/// ten ounces, which covers every listed weight).
pub proof fn lemma_ounce_text_injective(q1: nat, q2: nat)
    requires
        q2 < 40,
        ounce_text(q1) == ounce_text(q2),
    ensures
        q1 == q2,
{
    lemma_ounce_text_shape(q1);
    lemma_ounce_text_shape(q2);
    let t = ounce_text(q2);
    if q1 >= 40 {
        assert(t.len() >= 2);
        assert(t[1] == '.');
    } else {
        assert(t[0] == digit_char(q2 / 4));
        assert(ounce_text(q1)[0] == digit_char(q1 / 4));
        assert(q1 / 4 == q2 / 4);
        if q1 % 4 != q2 % 4 {
            if (q1 % 4 == 1 || q1 % 4 == 3) && (q2 % 4 == 1 || q2 % 4 == 3) {
                let c1 = if q1 % 4 == 1 { '2' } else { '7' };
                let c2 = if q2 % 4 == 1 { '2' } else { '7' };
                assert(ounce_text(q1) =~= seq![digit_char(q1 / 4), '.', c1, '5']);
                assert(t =~= seq![digit_char(q2 / 4), '.', c2, '5']);
                assert(ounce_text(q1)[2] != t[2]);
            } else {
                assert(ounce_text(q1).len() != t.len());
            }
        }
    }
}


/// Lower-casing, trimming and removing trailing `oz` (in any of the cases
/// listed) leave an ounce text.
pub proof fn lemma_ounce_text_normalized(q: nat, unit: Seq<char>)
    requires
        unit == Seq::<char>::empty() || unit == "oz"@ || unit == "OZ"@ || unit == "Oz"@,
    ensures
        lower_seq(ounce_text(q) + unit) == ounce_text(q) + lower_seq(unit),
        trim(strip_suffixes(lower_seq(ounce_text(q) + unit), "oz"@)) == ounce_text(q),
        trim(strip_suffixes(lower_seq(trim(ounce_text(q) + unit)), "oz"@)) == ounce_text(q),
{
    reveal_strlit("oz");
    reveal_strlit("OZ");
    reveal_strlit("Oz");
    lemma_ounce_text_shape(q);
    let t = ounce_text(q);
    let s = t + unit;
    assert(lower_seq(s) =~= t + lower_seq(unit));
    assert(lower_seq(unit) == Seq::<char>::empty() || lower_seq(unit) =~= "oz"@);
    assert(!is_white(s[0]));
    assert(!is_white(s.last()));
    assert(trim_start(s) == s);
    assert(trim(s) == s);
    let l = t + lower_seq(unit);
    if unit.len() > 0 {
        assert(l.subrange(l.len() - 2, l.len() as int) =~= "oz"@);
        assert(l.subrange(0, l.len() - 2) =~= t);
    }
    assert(t.subrange(t.len() - 2, t.len() as int) != "oz"@ || t.len() < 2) by {
        if t.len() >= 2 {
            assert(t.subrange(t.len() - 2, t.len() as int)[1] == t.last());
        }
    }
    assert(strip_suffixes(t, "oz"@) == t);
    assert(strip_suffixes(l, "oz"@) == t);
    assert(!is_white(t[0]));
    assert(!is_white(t.last()));
    assert(trim_start(t) == t);
}

/// A copper weight text states its weight: the ounce number of `q`
/// quarter ounces, with or without `oz`, names the copper weight of `q`
/// quarter ounces when there is one, and no weight otherwise.
pub proof fn lemma_copper_text_states_weight(q: nat, unit: Seq<char>, w: CopperWeight)
    requires
        unit == Seq::<char>::empty() || unit == "oz"@ || unit == "OZ"@ || unit == "Oz"@,
    ensures
        copper_quarter_oz(w) == q ==> copper_weight_of(ounce_text(q) + unit) == Some(w),
        copper_weight_of(ounce_text(q) + unit) == Some(w) ==> copper_quarter_oz(w) == q,
{
    lemma_ounce_text_normalized(q, unit);
    lemma_ounce_text_shape(q);
    lemma_listed_ounce_texts();
    let t = ounce_text(q);
    if t == ounce_text(1) { lemma_ounce_text_injective(q, 1); }
    if t == ounce_text(2) { lemma_ounce_text_injective(q, 2); }
    if t == ounce_text(4) { lemma_ounce_text_injective(q, 4); }
    if t == ounce_text(6) { lemma_ounce_text_injective(q, 6); }
    if t == ounce_text(8) { lemma_ounce_text_injective(q, 8); }
    if t == ounce_text(10) { lemma_ounce_text_injective(q, 10); }
    if t == ounce_text(12) { lemma_ounce_text_injective(q, 12); }
    if t == ounce_text(16) { lemma_ounce_text_injective(q, 16); }
    if t == ounce_text(20) { lemma_ounce_text_injective(q, 20); }
}

/// The weights written in the text tables, as ounce texts.
pub(crate) proof fn lemma_listed_ounce_texts()
    ensures
        ounce_text(0) == "0"@,
        ounce_text(1) == "0.25"@,
        ounce_text(2) == "0.5"@,
        ounce_text(4) == "1"@,
        ounce_text(6) == "1.5"@,
        ounce_text(8) == "2"@,
        ounce_text(10) == "2.5"@,
        ounce_text(12) == "3"@,
        ounce_text(16) == "4"@,
        ounce_text(20) == "5"@,
{
    reveal_strlit("0");
    reveal_strlit("0.25");
    reveal_strlit("0.5");
    reveal_strlit("1");
    reveal_strlit("1.5");
    reveal_strlit("2");
    reveal_strlit("2.5");
    reveal_strlit("3");
    reveal_strlit("4");
    reveal_strlit("5");
    assert(ounce_text(0) =~= "0"@);
    assert(ounce_text(1) =~= "0.25"@);
    assert(ounce_text(2) =~= "0.5"@);
    assert(ounce_text(4) =~= "1"@);
    assert(ounce_text(6) =~= "1.5"@);
    assert(ounce_text(8) =~= "2"@);
    assert(ounce_text(10) =~= "2.5"@);
    assert(ounce_text(12) =~= "3"@);
    assert(ounce_text(16) =~= "4"@);
    assert(ounce_text(20) =~= "5"@);
}

/// Plating thickness options.
#[derive(Debug, Clone, Copy, PartialEq, Eq, Structural)]
pub enum PlatingThickness {
    Bare,
    Oz05,
    Oz1,
    Oz15,
    Oz2,
    Oz25,
    Oz3,
}

/// The plating weight in quarter ounces per square foot (0 when bare).
pub open spec fn plating_quarter_oz(p: PlatingThickness) -> nat {
    match p {
        PlatingThickness::Bare => 0,
        PlatingThickness::Oz05 => 2,
        PlatingThickness::Oz1 => 4,
        PlatingThickness::Oz15 => 6,
        PlatingThickness::Oz2 => 8,
        PlatingThickness::Oz25 => 10,
        PlatingThickness::Oz3 => 12,
    }
}

impl PlatingThickness {
    /// Plating thickness in hundredths of a mil, under the same 1.4 mil per
    /// oz/ft² rule as copper weights.
    pub fn thickness_centimils(self) -> (t: u32)
        ensures
            t == 35 * plating_quarter_oz(self),
    {
        match self {
            PlatingThickness::Bare => 0,
            PlatingThickness::Oz05 => 70,
            PlatingThickness::Oz1 => 140,
            PlatingThickness::Oz15 => 210,
            PlatingThickness::Oz2 => 280,
            PlatingThickness::Oz25 => 350,
            PlatingThickness::Oz3 => 420,
        }
    }
}

/// Etch factor affecting conductor cross-section geometry.
///
/// The etched trace is an isosceles trapezoid whose base is the nominal
/// width `W` and whose top is narrowed by the etch profile; the top width
/// must stay strictly positive.
#[derive(Debug, Clone, Copy, PartialEq, Eq, Structural)]
pub enum EtchFactor {
    /// Rectangular cross-section (no etch compensation).
    NoEtch,
    /// 1:1 etch — trapezoid with top = W − 2T.
    OneToOne,
    /// 2:1 etch — trapezoid with top = W − T.
    TwoToOne,
}

/// The `k` of a `k:1` etch profile, whose top is narrowed by `2T / k`;
/// `None` for a rectangular cross-section.
pub open spec fn etch_ratio(e: EtchFactor) -> Option<nat> {
    match e {
        EtchFactor::NoEtch => None,
        EtchFactor::OneToOne => Some(1),
        EtchFactor::TwoToOne => Some(2),
    }
}

} // verus!
