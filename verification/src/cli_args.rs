//! Text forms of the command-line choices: plating, etch factor, spiral
//! shape, spacing category and wire gauge.
//!
//! Each parser returns `None` for a text that names no choice; the command
//! line reports such a text together with the valid values.

use vstd::prelude::*;

use crate::copper::{
    decimal, digit_char, etch_ratio, lemma_decimal_digits, lemma_listed_ounce_texts,
    lemma_ounce_text_injective, lemma_ounce_text_normalized, lemma_ounce_text_shape, ounce_text,
    plating_quarter_oz, EtchFactor, PlatingThickness,
};
use crate::inductor::{shape_name, SpiralShape};
use crate::spacing::{category_code, DeviceType};
use crate::text::{
    chars_of, is_white, lower, lower_chars, lower_seq, range_eq, strip_prefixes, strip_prefixes_index,
    strip_suffixes, strip_suffixes_index, trim, trim_bounds, trim_start,
};
use crate::wire_gauge::{awg_label, Awg};

verus! {

/// The plating a text names: lower-cased, every trailing `oz` removed,
/// then trimmed.
pub open spec fn plating_of(s: Seq<char>) -> Option<PlatingThickness> {
    let t = trim(strip_suffixes(lower_seq(s), "oz"@));
    if t == "bare"@ || t == "0"@ {
        Some(PlatingThickness::Bare)
    } else if t == "0.5"@ {
        Some(PlatingThickness::Oz05)
    } else if t == "1"@ {
        Some(PlatingThickness::Oz1)
    } else if t == "1.5"@ {
        Some(PlatingThickness::Oz15)
    } else if t == "2"@ {
        Some(PlatingThickness::Oz2)
    } else if t == "2.5"@ {
        Some(PlatingThickness::Oz25)
    } else if t == "3"@ {
        Some(PlatingThickness::Oz3)
    } else {
        None
    }
}

/// The etch factor a text names (case-insensitive).
pub open spec fn etch_of(s: Seq<char>) -> Option<EtchFactor> {
    let t = lower_seq(s);
    if t == "none"@ || t == "0"@ {
        Some(EtchFactor::NoEtch)
    } else if t == "1:1"@ || t == "1to1"@ || t == "onetone"@ {
        Some(EtchFactor::OneToOne)
    } else if t == "2:1"@ || t == "2to1"@ || t == "twotoone"@ {
        Some(EtchFactor::TwoToOne)
    } else {
        None
    }
}

/// The spiral shape a text names (case-insensitive).
pub open spec fn shape_of(s: Seq<char>) -> Option<SpiralShape> {
    let t = lower_seq(s);
    if t == "square"@ {
        Some(SpiralShape::Square)
    } else if t == "hexagonal"@ {
        Some(SpiralShape::Hexagonal)
    } else if t == "octagonal"@ {
        Some(SpiralShape::Octagonal)
    } else if t == "circle"@ || t == "circular"@ {
        Some(SpiralShape::Circle)
    } else {
        None
    }
}

/// The spacing category a text names (case-insensitive).
pub open spec fn device_type_of(s: Seq<char>) -> Option<DeviceType> {
    let t = lower_seq(s);
    if t == "b1"@ {
        Some(DeviceType::B1)
    } else if t == "b2"@ {
        Some(DeviceType::B2)
    } else if t == "b3"@ {
        Some(DeviceType::B3)
    } else if t == "b4"@ {
        Some(DeviceType::B4)
    } else if t == "b5"@ {
        Some(DeviceType::B5)
    } else if t == "a6"@ {
        Some(DeviceType::A6)
    } else if t == "a7"@ {
        Some(DeviceType::A7)
    } else if t == "a8"@ {
        Some(DeviceType::A8)
    } else {
        None
    }
}

/// The wire gauge a text names: lower-cased, every leading `awg` removed,
/// then trimmed; `0000`..`0` name 4/0..1/0.
pub open spec fn awg_of(s: Seq<char>) -> Option<Awg> {
    let t = trim(strip_prefixes(lower_seq(s), "awg"@));
    if t == "4/0"@ || t == "0000"@ {
        Some(Awg::Awg4_0)
    } else if t == "3/0"@ || t == "000"@ {
        Some(Awg::Awg3_0)
    } else if t == "2/0"@ || t == "00"@ {
        Some(Awg::Awg2_0)
    } else if t == "1/0"@ || t == "0"@ {
        Some(Awg::Awg1_0)
    } else if t == "1"@ {
        Some(Awg::Awg1)
    } else if t == "2"@ {
        Some(Awg::Awg2)
    } else if t == "3"@ {
        Some(Awg::Awg3)
    } else if t == "4"@ {
        Some(Awg::Awg4)
    } else if t == "5"@ {
        Some(Awg::Awg5)
    } else if t == "6"@ {
        Some(Awg::Awg6)
    } else if t == "7"@ {
        Some(Awg::Awg7)
    } else if t == "8"@ {
        Some(Awg::Awg8)
    } else if t == "9"@ {
        Some(Awg::Awg9)
    } else if t == "10"@ {
        Some(Awg::Awg10)
    } else if t == "11"@ {
        Some(Awg::Awg11)
    } else if t == "12"@ {
        Some(Awg::Awg12)
    } else if t == "13"@ {
        Some(Awg::Awg13)
    } else if t == "14"@ {
        Some(Awg::Awg14)
    } else if t == "15"@ {
        Some(Awg::Awg15)
    } else if t == "16"@ {
        Some(Awg::Awg16)
    } else if t == "17"@ {
        Some(Awg::Awg17)
    } else if t == "18"@ {
        Some(Awg::Awg18)
    } else if t == "19"@ {
        Some(Awg::Awg19)
    } else if t == "20"@ {
        Some(Awg::Awg20)
    } else if t == "21"@ {
        Some(Awg::Awg21)
    } else if t == "22"@ {
        Some(Awg::Awg22)
    } else if t == "23"@ {
        Some(Awg::Awg23)
    } else if t == "24"@ {
        Some(Awg::Awg24)
    } else if t == "25"@ {
        Some(Awg::Awg25)
    } else if t == "26"@ {
        Some(Awg::Awg26)
    } else if t == "27"@ {
        Some(Awg::Awg27)
    } else if t == "28"@ {
        Some(Awg::Awg28)
    } else if t == "29"@ {
        Some(Awg::Awg29)
    } else if t == "30"@ {
        Some(Awg::Awg30)
    } else if t == "31"@ {
        Some(Awg::Awg31)
    } else if t == "32"@ {
        Some(Awg::Awg32)
    } else if t == "33"@ {
        Some(Awg::Awg33)
    } else if t == "34"@ {
        Some(Awg::Awg34)
    } else if t == "35"@ {
        Some(Awg::Awg35)
    } else if t == "36"@ {
        Some(Awg::Awg36)
    } else if t == "37"@ {
        Some(Awg::Awg37)
    } else if t == "38"@ {
        Some(Awg::Awg38)
    } else if t == "39"@ {
        Some(Awg::Awg39)
    } else if t == "40"@ {
        Some(Awg::Awg40)
    } else {
        None
    }
}

/// Parse a plating text such as `bare`, `0.5oz` or `1`.
pub fn parse_plating(s: &str) -> (parsed: Option<PlatingThickness>)
    ensures
        parsed == plating_of(s@),
{
    let l = lower_chars(s);
    proof {
        reveal_strlit("oz");
        assert(l@.subrange(0, l@.len() as int) =~= l@);
    }
    let e = strip_suffixes_index(&l, 0, l.len(), "oz");
    let (a, b) = trim_bounds(&l, 0, e);
        if range_eq(&l, a, b, "bare") || range_eq(&l, a, b, "0") {
            Some(PlatingThickness::Bare)
        } else if range_eq(&l, a, b, "0.5") {
            Some(PlatingThickness::Oz05)
        } else if range_eq(&l, a, b, "1") {
            Some(PlatingThickness::Oz1)
        } else if range_eq(&l, a, b, "1.5") {
            Some(PlatingThickness::Oz15)
        } else if range_eq(&l, a, b, "2") {
            Some(PlatingThickness::Oz2)
        } else if range_eq(&l, a, b, "2.5") {
            Some(PlatingThickness::Oz25)
        } else if range_eq(&l, a, b, "3") {
            Some(PlatingThickness::Oz3)
        } else {
            None
        }
}

/// A plating text states its weight: the ounce number of `q` quarter
/// ounces, with or without `oz`, names the plating of `q` quarter ounces
/// (bare for none) when there is one, and no plating otherwise.
pub proof fn lemma_plating_text_states_weight(q: nat, unit: Seq<char>, p: PlatingThickness)
    requires
        unit == Seq::<char>::empty() || unit == "oz"@ || unit == "OZ"@ || unit == "Oz"@,
    ensures
        plating_quarter_oz(p) == q ==> plating_of(ounce_text(q) + unit) == Some(p),
        plating_of(ounce_text(q) + unit) == Some(p) ==> plating_quarter_oz(p) == q,
{
    lemma_ounce_text_normalized(q, unit);
    lemma_ounce_text_shape(q);
    lemma_listed_ounce_texts();
    reveal_strlit("bare");
    let t = ounce_text(q);
    assert(t != "bare"@) by {
        assert("bare"@[0] == 'b');
    }
    if t == ounce_text(0) { lemma_ounce_text_injective(q, 0); }
    if t == ounce_text(2) { lemma_ounce_text_injective(q, 2); }
    if t == ounce_text(4) { lemma_ounce_text_injective(q, 4); }
    if t == ounce_text(6) { lemma_ounce_text_injective(q, 6); }
    if t == ounce_text(8) { lemma_ounce_text_injective(q, 8); }
    if t == ounce_text(10) { lemma_ounce_text_injective(q, 10); }
    if t == ounce_text(12) { lemma_ounce_text_injective(q, 12); }
}

/// Parse an etch factor text: `none`, `1:1` or `2:1` (and their spelled forms).
pub fn parse_etch(s: &str) -> (parsed: Option<EtchFactor>)
    ensures
        parsed == etch_of(s@),
{
    let l = lower_chars(s);
    let n = l.len();
    assert(l@.subrange(0, n as int) =~= l@);
        if range_eq(&l, 0, n, "none") || range_eq(&l, 0, n, "0") {
            Some(EtchFactor::NoEtch)
        } else if range_eq(&l, 0, n, "1:1") || range_eq(&l, 0, n, "1to1") || range_eq(&l, 0, n, "onetone") {
            Some(EtchFactor::OneToOne)
        } else if range_eq(&l, 0, n, "2:1") || range_eq(&l, 0, n, "2to1") || range_eq(&l, 0, n, "twotoone") {
            Some(EtchFactor::TwoToOne)
        } else {
            None
        }
}

/// `k`, a separator and `1`, as a `k:1` etch profile is written.
pub open spec fn ratio_text(k: nat, sep: Seq<char>) -> Seq<char> {
    decimal(k) + sep + seq!['1']
}

/// A ratio text is made of digits and the separator; below ten it is the
/// digit, the separator and `1`; from ten on, it starts with two digits.
proof fn lemma_ratio_text_shape(k: nat, sep: Seq<char>)
    requires
        sep == seq![':'] || sep == seq!['t', 'o'],
    ensures
        lower_seq(ratio_text(k, sep)) == ratio_text(k, sep),
        k < 10 ==> ratio_text(k, sep) == seq![digit_char(k)] + sep + seq!['1'],
        k >= 10 ==> ratio_text(k, sep).len() >= sep.len() + 3,
        '0' <= ratio_text(k, sep)[0] && ratio_text(k, sep)[0] <= '9',
        k >= 10 ==> '0' <= ratio_text(k, sep)[1] && ratio_text(k, sep)[1] <= '9',
{
    lemma_decimal_digits(k);
    let t = ratio_text(k, sep);
    let d = decimal(k);
    assert forall|i: int| 0 <= i < t.len() implies lower(#[trigger] t[i]) == t[i] by {
        if i < d.len() {
            assert(t[i] == d[i]);
        } else if i < d.len() + sep.len() {
            assert(t[i] == sep[i - d.len()]);
        }
    }
    assert(lower_seq(t) =~= t);
    assert(t[0] == d[0]);
    if k >= 10 {
        assert(t[1] == d[1]);
    }
}

/// An etch text states its ratio: `k:1` (or `kto1`) names the etch profile
/// whose ratio is `k` when there is one, and no profile otherwise.
pub proof fn lemma_etch_text_states_ratio(k: nat, sep: Seq<char>, e: EtchFactor)
    requires
        sep == seq![':'] || sep == seq!['t', 'o'],
    ensures
        etch_ratio(e) == Some(k) ==> etch_of(ratio_text(k, sep)) == Some(e),
        etch_of(ratio_text(k, sep)) == Some(e) ==> etch_ratio(e) == Some(k),
{
    lemma_ratio_text_shape(k, sep);
    let t = ratio_text(k, sep);
    reveal_strlit("none");
    reveal_strlit("0");
    reveal_strlit("1:1");
    reveal_strlit("1to1");
    reveal_strlit("onetone");
    reveal_strlit("2:1");
    reveal_strlit("2to1");
    reveal_strlit("twotoone");
    assert(t != "none"@) by { assert("none"@[0] == 'n'); }
    assert(t != "onetone"@) by { assert("onetone"@[0] == 'o'); }
    assert(t != "twotoone"@) by { assert("twotoone"@[0] == 't'); }
    assert(t != "0"@) by { assert(t.len() >= 3); }
    if k < 10 {
        if sep == seq![':'] {
            assert(t != "1to1"@ && t != "2to1"@) by { assert(t.len() == 3); }
            if k == 1 { assert(t =~= "1:1"@); }
            if k == 2 { assert(t =~= "2:1"@); }
            if t == "1:1"@ { assert(t[0] == '1'); }
            if t == "2:1"@ { assert(t[0] == '2'); }
        } else {
            assert(t != "1:1"@ && t != "2:1"@) by { assert(t.len() == 4); }
            if k == 1 { assert(t =~= "1to1"@); }
            if k == 2 { assert(t =~= "2to1"@); }
            if t == "1to1"@ { assert(t[0] == '1'); }
            if t == "2to1"@ { assert(t[0] == '2'); }
        }
    } else {
        assert(t != "1:1"@) by { assert("1:1"@[1] == ':'); }
        assert(t != "2:1"@) by { assert("2:1"@[1] == ':'); }
        assert(t != "1to1"@) by { assert("1to1"@[1] == 't'); }
        assert(t != "2to1"@) by { assert("2to1"@[1] == 't'); }
    }
}

/// Parse a spiral shape text: `square`, `hexagonal`, `octagonal` or `circle`.
pub fn parse_shape(s: &str) -> (parsed: Option<SpiralShape>)
    ensures
        parsed == shape_of(s@),
{
    let l = lower_chars(s);
    let n = l.len();
    assert(l@.subrange(0, n as int) =~= l@);
        if range_eq(&l, 0, n, "square") {
            Some(SpiralShape::Square)
        } else if range_eq(&l, 0, n, "hexagonal") {
            Some(SpiralShape::Hexagonal)
        } else if range_eq(&l, 0, n, "octagonal") {
            Some(SpiralShape::Octagonal)
        } else if range_eq(&l, 0, n, "circle") || range_eq(&l, 0, n, "circular") {
            Some(SpiralShape::Circle)
        } else {
            None
        }
}

/// Every spiral shape is named by its own name, in any case.
pub proof fn lemma_shape_name_reads_back(sh: SpiralShape)
    ensures
        shape_of(shape_name(sh)) == Some(sh),
        shape_of(lower_seq(shape_name(sh))) == Some(sh),
{
    reveal_strlit("Square");
    reveal_strlit("Hexagonal");
    reveal_strlit("Octagonal");
    reveal_strlit("Circle");
    reveal_strlit("square");
    reveal_strlit("hexagonal");
    reveal_strlit("octagonal");
    reveal_strlit("circle");
    let t = shape_name(sh);
    match sh {
        SpiralShape::Square => {
            assert(lower_seq(t) =~= "square"@);
            assert(lower_seq(lower_seq(t)) =~= "square"@);
        },
        SpiralShape::Hexagonal => {
            assert(lower_seq(t) =~= "hexagonal"@);
            assert(lower_seq(lower_seq(t)) =~= "hexagonal"@);
        },
        SpiralShape::Octagonal => {
            assert(lower_seq(t) =~= "octagonal"@);
            assert(lower_seq(lower_seq(t)) =~= "octagonal"@);
            assert("octagonal"@[0] != "hexagonal"@[0]);
        },
        SpiralShape::Circle => {
            assert(lower_seq(t) =~= "circle"@);
            assert(lower_seq(lower_seq(t)) =~= "circle"@);
            assert("circle"@[0] != "square"@[0]);
        },
    }
}

/// Every spacing category is named by its code (`B1`..`B5`, `A6`..`A8`),
/// in either case, and a text names a category only when it is that
/// category's code up to case.
pub proof fn lemma_category_code_reads_back(d: DeviceType, t: Seq<char>)
    ensures
        device_type_of(category_code(d)) == Some(d),
        device_type_of(lower_seq(category_code(d))) == Some(d),
        device_type_of(t) == Some(d) ==> lower_seq(t) == lower_seq(category_code(d)),
{
    reveal_strlit("b1");
    reveal_strlit("b2");
    reveal_strlit("b3");
    reveal_strlit("b4");
    reveal_strlit("b5");
    reveal_strlit("a6");
    reveal_strlit("a7");
    reveal_strlit("a8");
    let c = category_code(d);
    let l = lower_seq(c);
    assert(lower_seq(l) =~= l);
    match d {
        DeviceType::B1 => assert(l =~= "b1"@),
        DeviceType::B2 => { assert(l =~= "b2"@); assert("b2"@[1] != "b1"@[1]); },
        DeviceType::B3 => {
            assert(l =~= "b3"@);
            assert("b3"@[1] != "b1"@[1]);
            assert("b3"@[1] != "b2"@[1]);
        },
        DeviceType::B4 => {
            assert(l =~= "b4"@);
            assert("b4"@[1] != "b1"@[1]);
            assert("b4"@[1] != "b2"@[1]);
            assert("b4"@[1] != "b3"@[1]);
        },
        DeviceType::B5 => {
            assert(l =~= "b5"@);
            assert("b5"@[1] != "b1"@[1]);
            assert("b5"@[1] != "b2"@[1]);
            assert("b5"@[1] != "b3"@[1]);
            assert("b5"@[1] != "b4"@[1]);
        },
        DeviceType::A6 => {
            assert(l =~= "a6"@);
            assert("a6"@[0] != "b1"@[0]);
            assert("a6"@[0] != "b2"@[0]);
            assert("a6"@[0] != "b3"@[0]);
            assert("a6"@[0] != "b4"@[0]);
            assert("a6"@[0] != "b5"@[0]);
        },
        DeviceType::A7 => {
            assert(l =~= "a7"@);
            assert("a7"@[0] != "b1"@[0]);
            assert("a7"@[0] != "b2"@[0]);
            assert("a7"@[0] != "b3"@[0]);
            assert("a7"@[0] != "b4"@[0]);
            assert("a7"@[0] != "b5"@[0]);
            assert("a7"@[1] != "a6"@[1]);
        },
        DeviceType::A8 => {
            assert(l =~= "a8"@);
            assert("a8"@[0] != "b1"@[0]);
            assert("a8"@[0] != "b2"@[0]);
            assert("a8"@[0] != "b3"@[0]);
            assert("a8"@[0] != "b4"@[0]);
            assert("a8"@[0] != "b5"@[0]);
            assert("a8"@[1] != "a6"@[1]);
            assert("a8"@[1] != "a7"@[1]);
        },
    }
}

/// Parse a spacing category text: `b1`..`b5`, `a6`..`a8`.
pub fn parse_device_type(s: &str) -> (parsed: Option<DeviceType>)
    ensures
        parsed == device_type_of(s@),
{
    let l = lower_chars(s);
    let n = l.len();
    assert(l@.subrange(0, n as int) =~= l@);
        if range_eq(&l, 0, n, "b1") {
            Some(DeviceType::B1)
        } else if range_eq(&l, 0, n, "b2") {
            Some(DeviceType::B2)
        } else if range_eq(&l, 0, n, "b3") {
            Some(DeviceType::B3)
        } else if range_eq(&l, 0, n, "b4") {
            Some(DeviceType::B4)
        } else if range_eq(&l, 0, n, "b5") {
            Some(DeviceType::B5)
        } else if range_eq(&l, 0, n, "a6") {
            Some(DeviceType::A6)
        } else if range_eq(&l, 0, n, "a7") {
            Some(DeviceType::A7)
        } else if range_eq(&l, 0, n, "a8") {
            Some(DeviceType::A8)
        } else {
            None
        }
}

/// Parse a wire gauge text such as `AWG22`, `4/0` or `0000`.
pub fn parse_awg(s: &str) -> (parsed: Option<Awg>)
    ensures
        parsed == awg_of(s@),
{
    let l = lower_chars(s);
    proof {
        reveal_strlit("awg");
        assert(l@.subrange(0, l@.len() as int) =~= l@);
    }
    let e = strip_prefixes_index(&l, 0, l.len(), "awg");
    let (a, b) = trim_bounds(&l, e, l.len());
    if range_eq(&l, a, b, "4/0") || range_eq(&l, a, b, "0000") {
        Some(Awg::Awg4_0)
    } else if range_eq(&l, a, b, "3/0") || range_eq(&l, a, b, "000") {
        Some(Awg::Awg3_0)
    } else if range_eq(&l, a, b, "2/0") || range_eq(&l, a, b, "00") {
        Some(Awg::Awg2_0)
    } else if range_eq(&l, a, b, "1/0") || range_eq(&l, a, b, "0") {
        Some(Awg::Awg1_0)
    } else if range_eq(&l, a, b, "1") {
        Some(Awg::Awg1)
    } else if range_eq(&l, a, b, "2") {
        Some(Awg::Awg2)
    } else if range_eq(&l, a, b, "3") {
        Some(Awg::Awg3)
    } else if range_eq(&l, a, b, "4") {
        Some(Awg::Awg4)
    } else if range_eq(&l, a, b, "5") {
        Some(Awg::Awg5)
    } else if range_eq(&l, a, b, "6") {
        Some(Awg::Awg6)
    } else if range_eq(&l, a, b, "7") {
        Some(Awg::Awg7)
    } else if range_eq(&l, a, b, "8") {
        Some(Awg::Awg8)
    } else if range_eq(&l, a, b, "9") {
        Some(Awg::Awg9)
    } else if range_eq(&l, a, b, "10") {
        Some(Awg::Awg10)
    } else if range_eq(&l, a, b, "11") {
        Some(Awg::Awg11)
    } else if range_eq(&l, a, b, "12") {
        Some(Awg::Awg12)
    } else if range_eq(&l, a, b, "13") {
        Some(Awg::Awg13)
    } else if range_eq(&l, a, b, "14") {
        Some(Awg::Awg14)
    } else if range_eq(&l, a, b, "15") {
        Some(Awg::Awg15)
    } else if range_eq(&l, a, b, "16") {
        Some(Awg::Awg16)
    } else if range_eq(&l, a, b, "17") {
        Some(Awg::Awg17)
    } else if range_eq(&l, a, b, "18") {
        Some(Awg::Awg18)
    } else if range_eq(&l, a, b, "19") {
        Some(Awg::Awg19)
    } else if range_eq(&l, a, b, "20") {
        Some(Awg::Awg20)
    } else if range_eq(&l, a, b, "21") {
        Some(Awg::Awg21)
    } else if range_eq(&l, a, b, "22") {
        Some(Awg::Awg22)
    } else if range_eq(&l, a, b, "23") {
        Some(Awg::Awg23)
    } else if range_eq(&l, a, b, "24") {
        Some(Awg::Awg24)
    } else if range_eq(&l, a, b, "25") {
        Some(Awg::Awg25)
    } else if range_eq(&l, a, b, "26") {
        Some(Awg::Awg26)
    } else if range_eq(&l, a, b, "27") {
        Some(Awg::Awg27)
    } else if range_eq(&l, a, b, "28") {
        Some(Awg::Awg28)
    } else if range_eq(&l, a, b, "29") {
        Some(Awg::Awg29)
    } else if range_eq(&l, a, b, "30") {
        Some(Awg::Awg30)
    } else if range_eq(&l, a, b, "31") {
        Some(Awg::Awg31)
    } else if range_eq(&l, a, b, "32") {
        Some(Awg::Awg32)
    } else if range_eq(&l, a, b, "33") {
        Some(Awg::Awg33)
    } else if range_eq(&l, a, b, "34") {
        Some(Awg::Awg34)
    } else if range_eq(&l, a, b, "35") {
        Some(Awg::Awg35)
    } else if range_eq(&l, a, b, "36") {
        Some(Awg::Awg36)
    } else if range_eq(&l, a, b, "37") {
        Some(Awg::Awg37)
    } else if range_eq(&l, a, b, "38") {
        Some(Awg::Awg38)
    } else if range_eq(&l, a, b, "39") {
        Some(Awg::Awg39)
    } else if range_eq(&l, a, b, "40") {
        Some(Awg::Awg40)
    } else {
        None
    }
}

/// A text made of digits and `/` only is left as it is by lower-casing,
/// trimming and removing a leading `awg`.
proof fn lemma_gauge_text_unchanged(t: Seq<char>)
    requires
        forall|i: int| 0 <= i < t.len() ==> (('0' <= t[i] && t[i] <= '9') || t[i] == '/'),
    ensures
        lower_seq(t) == t,
        trim(t) == t,
        strip_prefixes(t, "awg"@) == t,
{
    assert(lower_seq(t) =~= t);
    reveal_strlit("awg");
    if t.len() >= 3 {
        assert(t.subrange(0, 3)[0] != "awg"@[0]);
    }
    if t.len() > 0 {
        assert(!is_white(t[0]));
        assert(!is_white(t.last()));
    }
    assert(trim_start(t) == t);
}

/// Reading `awg` (in any case) in front of a text made of digits and `/`
/// leaves the text.
proof fn lemma_awg_prefix_removed(p: Seq<char>, t: Seq<char>)
    requires
        p == "awg"@ || p == "AWG"@,
        forall|i: int| 0 <= i < t.len() ==> (('0' <= t[i] && t[i] <= '9') || t[i] == '/'),
    ensures
        trim(strip_prefixes(lower_seq(p + t), "awg"@)) == t,
{
    reveal_strlit("awg");
    reveal_strlit("AWG");
    lemma_gauge_text_unchanged(t);
    let l = lower_seq(p + t);
    assert(l =~= "awg"@ + t);
    assert(l.subrange(0, 3) =~= "awg"@);
    assert(l.subrange(3, l.len() as int) =~= t);
}

/// Every gauge is named by its own label: the label, with or without a
/// leading `awg` or `AWG`, reads back as that gauge.
pub proof fn lemma_gauge_label_reads_back(a: Awg)
    ensures
        awg_of(awg_label(a)) == Some(a),
        awg_of("awg"@ + awg_label(a)) == Some(a),
        awg_of("AWG"@ + awg_label(a)) == Some(a),
{
    let t = awg_label(a);
    reveal_strlit("4/0");
    reveal_strlit("3/0");
    reveal_strlit("2/0");
    reveal_strlit("1/0");
    reveal_strlit("1");
    reveal_strlit("2");
    reveal_strlit("3");
    reveal_strlit("4");
    reveal_strlit("5");
    reveal_strlit("6");
    reveal_strlit("7");
    reveal_strlit("8");
    reveal_strlit("9");
    reveal_strlit("10");
    reveal_strlit("11");
    reveal_strlit("12");
    reveal_strlit("13");
    reveal_strlit("14");
    reveal_strlit("15");
    reveal_strlit("16");
    reveal_strlit("17");
    reveal_strlit("18");
    reveal_strlit("19");
    reveal_strlit("20");
    reveal_strlit("21");
    reveal_strlit("22");
    reveal_strlit("23");
    reveal_strlit("24");
    reveal_strlit("25");
    reveal_strlit("26");
    reveal_strlit("27");
    reveal_strlit("28");
    reveal_strlit("29");
    reveal_strlit("30");
    reveal_strlit("31");
    reveal_strlit("32");
    reveal_strlit("33");
    reveal_strlit("34");
    reveal_strlit("35");
    reveal_strlit("36");
    reveal_strlit("37");
    reveal_strlit("38");
    reveal_strlit("39");
    reveal_strlit("40");
    reveal_strlit("0000");
    reveal_strlit("000");
    reveal_strlit("00");
    reveal_strlit("0");
    match a {
        Awg::Awg4_0 => {},
        Awg::Awg3_0 => {},
        Awg::Awg2_0 => {},
        Awg::Awg1_0 => {},
        Awg::Awg1 => {},
        Awg::Awg2 => {},
        Awg::Awg3 => {},
        Awg::Awg4 => {},
        Awg::Awg5 => {},
        Awg::Awg6 => {},
        Awg::Awg7 => {},
        Awg::Awg8 => {},
        Awg::Awg9 => {},
        Awg::Awg10 => {},
        Awg::Awg11 => {},
        Awg::Awg12 => {},
        Awg::Awg13 => {},
        Awg::Awg14 => {},
        Awg::Awg15 => {},
        Awg::Awg16 => {},
        Awg::Awg17 => {},
        Awg::Awg18 => {},
        Awg::Awg19 => {},
        Awg::Awg20 => {},
        Awg::Awg21 => {},
        Awg::Awg22 => {},
        Awg::Awg23 => {},
        Awg::Awg24 => {},
        Awg::Awg25 => {},
        Awg::Awg26 => {},
        Awg::Awg27 => {},
        Awg::Awg28 => {},
        Awg::Awg29 => {},
        Awg::Awg30 => {},
        Awg::Awg31 => {},
        Awg::Awg32 => {},
        Awg::Awg33 => {},
        Awg::Awg34 => {},
        Awg::Awg35 => {},
        Awg::Awg36 => {},
        Awg::Awg37 => {},
        Awg::Awg38 => {},
        Awg::Awg39 => {},
        Awg::Awg40 => {},
    }
    lemma_gauge_text_unchanged(t);
    lemma_awg_prefix_removed("awg"@, t);
    lemma_awg_prefix_removed("AWG"@, t);
}

/// The number of noughts of a gauge written `n/0` (1/0 to 4/0).
pub open spec fn aught_count(a: Awg) -> Option<nat> {
    match a {
        Awg::Awg1_0 => Some(1),
        Awg::Awg2_0 => Some(2),
        Awg::Awg3_0 => Some(3),
        Awg::Awg4_0 => Some(4),
        _ => None,
    }
}

/// The gauges from 1/0 up are labelled `n/0`, and `n` zeros name the same
/// gauge as `n/0`.
pub proof fn lemma_zeros_name_aught_gauges(a: Awg, n: nat)
    requires
        aught_count(a) == Some(n),
    ensures
        awg_label(a) == seq![digit_char(n), '/', '0'],
        awg_of(Seq::new(n, |i: int| '0')) == Some(a),
{
    reveal_strlit("4/0");
    reveal_strlit("3/0");
    reveal_strlit("2/0");
    reveal_strlit("1/0");
    reveal_strlit("0000");
    reveal_strlit("000");
    reveal_strlit("00");
    reveal_strlit("0");
    let z = Seq::new(n, |i: int| '0');
    lemma_gauge_text_unchanged(z);
    match a {
        Awg::Awg4_0 => {
            assert(awg_label(a) =~= seq![digit_char(n), '/', '0']);
            assert(z =~= "0000"@);
        },
        Awg::Awg3_0 => {
            assert(awg_label(a) =~= seq![digit_char(n), '/', '0']);
            assert(z =~= "000"@);
            assert(z != "4/0"@);
        },
        Awg::Awg2_0 => {
            assert(awg_label(a) =~= seq![digit_char(n), '/', '0']);
            assert(z =~= "00"@);
        },
        Awg::Awg1_0 => {
            assert(awg_label(a) =~= seq![digit_char(n), '/', '0']);
            assert(z =~= "0"@);
        },
        _ => {},
    }
}

/// The etch factor the current-capacity command accepts: exactly `none`,
/// `1:1` or `2:1` (case-sensitive).
pub open spec fn current_etch_of(s: Seq<char>) -> Option<EtchFactor> {
    if s == "none"@ {
        Some(EtchFactor::NoEtch)
    } else if s == "1:1"@ {
        Some(EtchFactor::OneToOne)
    } else if s == "2:1"@ {
        Some(EtchFactor::TwoToOne)
    } else {
        None
    }
}

/// Parse the etch factor of the current-capacity command: exactly `none`,
/// `1:1` or `2:1`.
pub fn parse_current_etch(s: &str) -> (parsed: Option<EtchFactor>)
    ensures
        parsed == current_etch_of(s@),
{
    let l = chars_of(s);
    let n = l.len();
    assert(l@.subrange(0, n as int) =~= l@);
    if range_eq(&l, 0, n, "none") {
        Some(EtchFactor::NoEtch)
    } else if range_eq(&l, 0, n, "1:1") {
        Some(EtchFactor::OneToOne)
    } else if range_eq(&l, 0, n, "2:1") {
        Some(EtchFactor::TwoToOne)
    } else {
        None
    }
}

/// The current-capacity command's etch text states its ratio too: `k:1`
/// names the etch profile whose ratio is `k` when there is one, and no
/// profile otherwise.
pub proof fn lemma_current_etch_text_states_ratio(k: nat, e: EtchFactor)
    ensures
        etch_ratio(e) == Some(k) ==> current_etch_of(ratio_text(k, seq![':'])) == Some(e),
        current_etch_of(ratio_text(k, seq![':'])) == Some(e) ==> etch_ratio(e) == Some(k),
{
    lemma_ratio_text_shape(k, seq![':']);
    let t = ratio_text(k, seq![':']);
    reveal_strlit("none");
    reveal_strlit("1:1");
    reveal_strlit("2:1");
    assert(t != "none"@) by { assert("none"@[0] == 'n'); }
    if k < 10 {
        if k == 1 { assert(t =~= "1:1"@); }
        if k == 2 { assert(t =~= "2:1"@); }
        if t == "1:1"@ { assert(t[0] == '1'); }
        if t == "2:1"@ { assert(t[0] == '2'); }
    } else {
        assert(t != "1:1"@) by { assert("1:1"@[1] == ':'); }
        assert(t != "2:1"@) by { assert("2:1"@[1] == ':'); }
    }
}

/// Arguments of the wire-gauge command: the gauge as it was typed.
pub struct WireGaugeArgs {
    pub awg: String,
}

impl WireGaugeArgs {
    /// The gauge that `awg` names, as [`parse_awg`] reads it.
    pub fn gauge(&self) -> (parsed: Option<Awg>)
        ensures
            parsed == awg_of(self.awg@),
    {
        parse_awg(self.awg.as_str())
    }
}

} // verus!
