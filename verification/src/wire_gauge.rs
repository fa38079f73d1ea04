//! AWG wire gauge table, 4/0 (largest) through 40 (smallest).
//!
//! The table holds, for each gauge, its label, its diameter in tenths of a
//! mil (ten-thousandths of an inch) and its DC resistance in milliohms per
//! 1000 ft, exactly as Saturn PCB Toolkit lists them (diameter in inches
//! and resistance in ohms per 1000 ft, to four and three decimals).

use vstd::prelude::*;

verus! {

/// AWG wire gauge sizes from 4/0 (largest) to 40 (smallest).
#[derive(Debug, Clone, Copy, PartialEq, Eq, Structural)]
pub enum Awg {
    Awg4_0,
    Awg3_0,
    Awg2_0,
    Awg1_0,
    Awg1,
    Awg2,
    Awg3,
    Awg4,
    Awg5,
    Awg6,
    Awg7,
    Awg8,
    Awg9,
    Awg10,
    Awg11,
    Awg12,
    Awg13,
    Awg14,
    Awg15,
    Awg16,
    Awg17,
    Awg18,
    Awg19,
    Awg20,
    Awg21,
    Awg22,
    Awg23,
    Awg24,
    Awg25,
    Awg26,
    Awg27,
    Awg28,
    Awg29,
    Awg30,
    Awg31,
    Awg32,
    Awg33,
    Awg34,
    Awg35,
    Awg36,
    Awg37,
    Awg38,
    Awg39,
    Awg40,
}

/// Number of gauges in the table.
pub const AWG_COUNT: usize = 44;

/// Position of a gauge in the table (0 = 4/0, 43 = 40).
pub open spec fn awg_index(a: Awg) -> nat {
    match a {
        Awg::Awg4_0 => 0,
        Awg::Awg3_0 => 1,
        Awg::Awg2_0 => 2,
        Awg::Awg1_0 => 3,
        Awg::Awg1 => 4,
        Awg::Awg2 => 5,
        Awg::Awg3 => 6,
        Awg::Awg4 => 7,
        Awg::Awg5 => 8,
        Awg::Awg6 => 9,
        Awg::Awg7 => 10,
        Awg::Awg8 => 11,
        Awg::Awg9 => 12,
        Awg::Awg10 => 13,
        Awg::Awg11 => 14,
        Awg::Awg12 => 15,
        Awg::Awg13 => 16,
        Awg::Awg14 => 17,
        Awg::Awg15 => 18,
        Awg::Awg16 => 19,
        Awg::Awg17 => 20,
        Awg::Awg18 => 21,
        Awg::Awg19 => 22,
        Awg::Awg20 => 23,
        Awg::Awg21 => 24,
        Awg::Awg22 => 25,
        Awg::Awg23 => 26,
        Awg::Awg24 => 27,
        Awg::Awg25 => 28,
        Awg::Awg26 => 29,
        Awg::Awg27 => 30,
        Awg::Awg28 => 31,
        Awg::Awg29 => 32,
        Awg::Awg30 => 33,
        Awg::Awg31 => 34,
        Awg::Awg32 => 35,
        Awg::Awg33 => 36,
        Awg::Awg34 => 37,
        Awg::Awg35 => 38,
        Awg::Awg36 => 39,
        Awg::Awg37 => 40,
        Awg::Awg38 => 41,
        Awg::Awg39 => 42,
        Awg::Awg40 => 43,
    }
}

/// The gauge at a table position, if the position is in the table.
pub open spec fn awg_at(i: int) -> Option<Awg> {
    if i == 0 {
        Some(Awg::Awg4_0)
    } else if i == 1 {
        Some(Awg::Awg3_0)
    } else if i == 2 {
        Some(Awg::Awg2_0)
    } else if i == 3 {
        Some(Awg::Awg1_0)
    } else if i == 4 {
        Some(Awg::Awg1)
    } else if i == 5 {
        Some(Awg::Awg2)
    } else if i == 6 {
        Some(Awg::Awg3)
    } else if i == 7 {
        Some(Awg::Awg4)
    } else if i == 8 {
        Some(Awg::Awg5)
    } else if i == 9 {
        Some(Awg::Awg6)
    } else if i == 10 {
        Some(Awg::Awg7)
    } else if i == 11 {
        Some(Awg::Awg8)
    } else if i == 12 {
        Some(Awg::Awg9)
    } else if i == 13 {
        Some(Awg::Awg10)
    } else if i == 14 {
        Some(Awg::Awg11)
    } else if i == 15 {
        Some(Awg::Awg12)
    } else if i == 16 {
        Some(Awg::Awg13)
    } else if i == 17 {
        Some(Awg::Awg14)
    } else if i == 18 {
        Some(Awg::Awg15)
    } else if i == 19 {
        Some(Awg::Awg16)
    } else if i == 20 {
        Some(Awg::Awg17)
    } else if i == 21 {
        Some(Awg::Awg18)
    } else if i == 22 {
        Some(Awg::Awg19)
    } else if i == 23 {
        Some(Awg::Awg20)
    } else if i == 24 {
        Some(Awg::Awg21)
    } else if i == 25 {
        Some(Awg::Awg22)
    } else if i == 26 {
        Some(Awg::Awg23)
    } else if i == 27 {
        Some(Awg::Awg24)
    } else if i == 28 {
        Some(Awg::Awg25)
    } else if i == 29 {
        Some(Awg::Awg26)
    } else if i == 30 {
        Some(Awg::Awg27)
    } else if i == 31 {
        Some(Awg::Awg28)
    } else if i == 32 {
        Some(Awg::Awg29)
    } else if i == 33 {
        Some(Awg::Awg30)
    } else if i == 34 {
        Some(Awg::Awg31)
    } else if i == 35 {
        Some(Awg::Awg32)
    } else if i == 36 {
        Some(Awg::Awg33)
    } else if i == 37 {
        Some(Awg::Awg34)
    } else if i == 38 {
        Some(Awg::Awg35)
    } else if i == 39 {
        Some(Awg::Awg36)
    } else if i == 40 {
        Some(Awg::Awg37)
    } else if i == 41 {
        Some(Awg::Awg38)
    } else if i == 42 {
        Some(Awg::Awg39)
    } else if i == 43 {
        Some(Awg::Awg40)
    } else {
        None
    }
}

/// Diameter of a gauge in tenths of a mil.
pub open spec fn awg_diameter_tenth_mils(a: Awg) -> nat {
    match a {
        Awg::Awg4_0 => 4600,
        Awg::Awg3_0 => 4096,
        Awg::Awg2_0 => 3648,
        Awg::Awg1_0 => 3249,
        Awg::Awg1 => 2893,
        Awg::Awg2 => 2576,
        Awg::Awg3 => 2294,
        Awg::Awg4 => 2043,
        Awg::Awg5 => 1819,
        Awg::Awg6 => 1620,
        Awg::Awg7 => 1443,
        Awg::Awg8 => 1285,
        Awg::Awg9 => 1144,
        Awg::Awg10 => 1019,
        Awg::Awg11 => 907,
        Awg::Awg12 => 808,
        Awg::Awg13 => 720,
        Awg::Awg14 => 641,
        Awg::Awg15 => 571,
        Awg::Awg16 => 508,
        Awg::Awg17 => 453,
        Awg::Awg18 => 403,
        Awg::Awg19 => 359,
        Awg::Awg20 => 320,
        Awg::Awg21 => 285,
        Awg::Awg22 => 254,
        Awg::Awg23 => 226,
        Awg::Awg24 => 201,
        Awg::Awg25 => 179,
        Awg::Awg26 => 159,
        Awg::Awg27 => 142,
        Awg::Awg28 => 126,
        Awg::Awg29 => 113,
        Awg::Awg30 => 100,
        Awg::Awg31 => 89,
        Awg::Awg32 => 80,
        Awg::Awg33 => 71,
        Awg::Awg34 => 63,
        Awg::Awg35 => 56,
        Awg::Awg36 => 50,
        Awg::Awg37 => 45,
        Awg::Awg38 => 40,
        Awg::Awg39 => 35,
        Awg::Awg40 => 31,
    }
}

/// DC resistance of a gauge in milliohms per 1000 ft.
pub open spec fn awg_resistance_milliohm_per_kft(a: Awg) -> nat {
    match a {
        Awg::Awg4_0 => 50,
        Awg::Awg3_0 => 60,
        Awg::Awg2_0 => 80,
        Awg::Awg1_0 => 100,
        Awg::Awg1 => 120,
        Awg::Awg2 => 160,
        Awg::Awg3 => 200,
        Awg::Awg4 => 250,
        Awg::Awg5 => 310,
        Awg::Awg6 => 400,
        Awg::Awg7 => 500,
        Awg::Awg8 => 630,
        Awg::Awg9 => 790,
        Awg::Awg10 => 1000,
        Awg::Awg11 => 1260,
        Awg::Awg12 => 1590,
        Awg::Awg13 => 2000,
        Awg::Awg14 => 2530,
        Awg::Awg15 => 3190,
        Awg::Awg16 => 4020,
        Awg::Awg17 => 5060,
        Awg::Awg18 => 6390,
        Awg::Awg19 => 8050,
        Awg::Awg20 => 10150,
        Awg::Awg21 => 12800,
        Awg::Awg22 => 16140,
        Awg::Awg23 => 20360,
        Awg::Awg24 => 25670,
        Awg::Awg25 => 32370,
        Awg::Awg26 => 40810,
        Awg::Awg27 => 51470,
        Awg::Awg28 => 64900,
        Awg::Awg29 => 81830,
        Awg::Awg30 => 103200,
        Awg::Awg31 => 130100,
        Awg::Awg32 => 164100,
        Awg::Awg33 => 206900,
        Awg::Awg34 => 260900,
        Awg::Awg35 => 329000,
        Awg::Awg36 => 414800,
        Awg::Awg37 => 523100,
        Awg::Awg38 => 659600,
        Awg::Awg39 => 831800,
        Awg::Awg40 => 1049000,
    }
}

/// Label of a gauge: "4/0", "3/0", ..., "40".
pub open spec fn awg_label(a: Awg) -> Seq<char> {
    match a {
        Awg::Awg4_0 => "4/0"@,
        Awg::Awg3_0 => "3/0"@,
        Awg::Awg2_0 => "2/0"@,
        Awg::Awg1_0 => "1/0"@,
        Awg::Awg1 => "1"@,
        Awg::Awg2 => "2"@,
        Awg::Awg3 => "3"@,
        Awg::Awg4 => "4"@,
        Awg::Awg5 => "5"@,
        Awg::Awg6 => "6"@,
        Awg::Awg7 => "7"@,
        Awg::Awg8 => "8"@,
        Awg::Awg9 => "9"@,
        Awg::Awg10 => "10"@,
        Awg::Awg11 => "11"@,
        Awg::Awg12 => "12"@,
        Awg::Awg13 => "13"@,
        Awg::Awg14 => "14"@,
        Awg::Awg15 => "15"@,
        Awg::Awg16 => "16"@,
        Awg::Awg17 => "17"@,
        Awg::Awg18 => "18"@,
        Awg::Awg19 => "19"@,
        Awg::Awg20 => "20"@,
        Awg::Awg21 => "21"@,
        Awg::Awg22 => "22"@,
        Awg::Awg23 => "23"@,
        Awg::Awg24 => "24"@,
        Awg::Awg25 => "25"@,
        Awg::Awg26 => "26"@,
        Awg::Awg27 => "27"@,
        Awg::Awg28 => "28"@,
        Awg::Awg29 => "29"@,
        Awg::Awg30 => "30"@,
        Awg::Awg31 => "31"@,
        Awg::Awg32 => "32"@,
        Awg::Awg33 => "33"@,
        Awg::Awg34 => "34"@,
        Awg::Awg35 => "35"@,
        Awg::Awg36 => "36"@,
        Awg::Awg37 => "37"@,
        Awg::Awg38 => "38"@,
        Awg::Awg39 => "39"@,
        Awg::Awg40 => "40"@,
    }
}

impl Awg {
    /// Returns the table index for this gauge (0 = 4/0, 43 = 40).
    pub fn index(self) -> (i: usize)
        ensures
            i == awg_index(self),
            i < AWG_COUNT,
    {
        match self {
            Awg::Awg4_0 => 0,
            Awg::Awg3_0 => 1,
            Awg::Awg2_0 => 2,
            Awg::Awg1_0 => 3,
            Awg::Awg1 => 4,
            Awg::Awg2 => 5,
            Awg::Awg3 => 6,
            Awg::Awg4 => 7,
            Awg::Awg5 => 8,
            Awg::Awg6 => 9,
            Awg::Awg7 => 10,
            Awg::Awg8 => 11,
            Awg::Awg9 => 12,
            Awg::Awg10 => 13,
            Awg::Awg11 => 14,
            Awg::Awg12 => 15,
            Awg::Awg13 => 16,
            Awg::Awg14 => 17,
            Awg::Awg15 => 18,
            Awg::Awg16 => 19,
            Awg::Awg17 => 20,
            Awg::Awg18 => 21,
            Awg::Awg19 => 22,
            Awg::Awg20 => 23,
            Awg::Awg21 => 24,
            Awg::Awg22 => 25,
            Awg::Awg23 => 26,
            Awg::Awg24 => 27,
            Awg::Awg25 => 28,
            Awg::Awg26 => 29,
            Awg::Awg27 => 30,
            Awg::Awg28 => 31,
            Awg::Awg29 => 32,
            Awg::Awg30 => 33,
            Awg::Awg31 => 34,
            Awg::Awg32 => 35,
            Awg::Awg33 => 36,
            Awg::Awg34 => 37,
            Awg::Awg35 => 38,
            Awg::Awg36 => 39,
            Awg::Awg37 => 40,
            Awg::Awg38 => 41,
            Awg::Awg39 => 42,
            Awg::Awg40 => 43,
        }
    }

    /// Returns the gauge at the given table position (ComboBox-style index),
    /// or `None` if out of range.
    pub fn from_index(idx: usize) -> (a: Option<Awg>)
        ensures
            a == awg_at(idx as int),
    {
        match idx {
            0 => Some(Awg::Awg4_0),
            1 => Some(Awg::Awg3_0),
            2 => Some(Awg::Awg2_0),
            3 => Some(Awg::Awg1_0),
            4 => Some(Awg::Awg1),
            5 => Some(Awg::Awg2),
            6 => Some(Awg::Awg3),
            7 => Some(Awg::Awg4),
            8 => Some(Awg::Awg5),
            9 => Some(Awg::Awg6),
            10 => Some(Awg::Awg7),
            11 => Some(Awg::Awg8),
            12 => Some(Awg::Awg9),
            13 => Some(Awg::Awg10),
            14 => Some(Awg::Awg11),
            15 => Some(Awg::Awg12),
            16 => Some(Awg::Awg13),
            17 => Some(Awg::Awg14),
            18 => Some(Awg::Awg15),
            19 => Some(Awg::Awg16),
            20 => Some(Awg::Awg17),
            21 => Some(Awg::Awg18),
            22 => Some(Awg::Awg19),
            23 => Some(Awg::Awg20),
            24 => Some(Awg::Awg21),
            25 => Some(Awg::Awg22),
            26 => Some(Awg::Awg23),
            27 => Some(Awg::Awg24),
            28 => Some(Awg::Awg25),
            29 => Some(Awg::Awg26),
            30 => Some(Awg::Awg27),
            31 => Some(Awg::Awg28),
            32 => Some(Awg::Awg29),
            33 => Some(Awg::Awg30),
            34 => Some(Awg::Awg31),
            35 => Some(Awg::Awg32),
            36 => Some(Awg::Awg33),
            37 => Some(Awg::Awg34),
            38 => Some(Awg::Awg35),
            39 => Some(Awg::Awg36),
            40 => Some(Awg::Awg37),
            41 => Some(Awg::Awg38),
            42 => Some(Awg::Awg39),
            43 => Some(Awg::Awg40),
            _ => None,
        }
    }

    /// Returns all 44 gauges in order from largest (4/0) to smallest (40).
    pub fn all() -> (gauges: Vec<Awg>)
        ensures
            gauges@.len() == AWG_COUNT,
            forall|i: int| 0 <= i < AWG_COUNT ==> awg_at(i) == Some(#[trigger] gauges@[i]),
    {
        let mut gauges: Vec<Awg> = Vec::new();
        let mut i: usize = 0;
        while i < AWG_COUNT
            invariant
                i <= AWG_COUNT,
                gauges@.len() == i,
                forall|k: int| 0 <= k < i ==> awg_at(k) == Some(#[trigger] gauges@[k]),
            decreases AWG_COUNT - i,
        {
            match Awg::from_index(i) {
                Some(a) => gauges.push(a),
                None => {
                    assert(false);
                },
            }
            i = i + 1;
        }
        gauges
    }

    /// Diameter in tenths of a mil (4600 for 4/0, that is 0.4600 in).
    pub fn diameter_tenth_mils(self) -> (v: u32)
        ensures
            v == awg_diameter_tenth_mils(self),
    {
        match self {
            Awg::Awg4_0 => 4600,
            Awg::Awg3_0 => 4096,
            Awg::Awg2_0 => 3648,
            Awg::Awg1_0 => 3249,
            Awg::Awg1 => 2893,
            Awg::Awg2 => 2576,
            Awg::Awg3 => 2294,
            Awg::Awg4 => 2043,
            Awg::Awg5 => 1819,
            Awg::Awg6 => 1620,
            Awg::Awg7 => 1443,
            Awg::Awg8 => 1285,
            Awg::Awg9 => 1144,
            Awg::Awg10 => 1019,
            Awg::Awg11 => 907,
            Awg::Awg12 => 808,
            Awg::Awg13 => 720,
            Awg::Awg14 => 641,
            Awg::Awg15 => 571,
            Awg::Awg16 => 508,
            Awg::Awg17 => 453,
            Awg::Awg18 => 403,
            Awg::Awg19 => 359,
            Awg::Awg20 => 320,
            Awg::Awg21 => 285,
            Awg::Awg22 => 254,
            Awg::Awg23 => 226,
            Awg::Awg24 => 201,
            Awg::Awg25 => 179,
            Awg::Awg26 => 159,
            Awg::Awg27 => 142,
            Awg::Awg28 => 126,
            Awg::Awg29 => 113,
            Awg::Awg30 => 100,
            Awg::Awg31 => 89,
            Awg::Awg32 => 80,
            Awg::Awg33 => 71,
            Awg::Awg34 => 63,
            Awg::Awg35 => 56,
            Awg::Awg36 => 50,
            Awg::Awg37 => 45,
            Awg::Awg38 => 40,
            Awg::Awg39 => 35,
            Awg::Awg40 => 31,
        }
    }

    /// DC resistance in milliohms per 1000 ft (50 for 4/0).
    pub fn resistance_milliohm_per_kft(self) -> (v: u32)
        ensures
            v == awg_resistance_milliohm_per_kft(self),
    {
        match self {
            Awg::Awg4_0 => 50,
            Awg::Awg3_0 => 60,
            Awg::Awg2_0 => 80,
            Awg::Awg1_0 => 100,
            Awg::Awg1 => 120,
            Awg::Awg2 => 160,
            Awg::Awg3 => 200,
            Awg::Awg4 => 250,
            Awg::Awg5 => 310,
            Awg::Awg6 => 400,
            Awg::Awg7 => 500,
            Awg::Awg8 => 630,
            Awg::Awg9 => 790,
            Awg::Awg10 => 1000,
            Awg::Awg11 => 1260,
            Awg::Awg12 => 1590,
            Awg::Awg13 => 2000,
            Awg::Awg14 => 2530,
            Awg::Awg15 => 3190,
            Awg::Awg16 => 4020,
            Awg::Awg17 => 5060,
            Awg::Awg18 => 6390,
            Awg::Awg19 => 8050,
            Awg::Awg20 => 10150,
            Awg::Awg21 => 12800,
            Awg::Awg22 => 16140,
            Awg::Awg23 => 20360,
            Awg::Awg24 => 25670,
            Awg::Awg25 => 32370,
            Awg::Awg26 => 40810,
            Awg::Awg27 => 51470,
            Awg::Awg28 => 64900,
            Awg::Awg29 => 81830,
            Awg::Awg30 => 103200,
            Awg::Awg31 => 130100,
            Awg::Awg32 => 164100,
            Awg::Awg33 => 206900,
            Awg::Awg34 => 260900,
            Awg::Awg35 => 329000,
            Awg::Awg36 => 414800,
            Awg::Awg37 => 523100,
            Awg::Awg38 => 659600,
            Awg::Awg39 => 831800,
            Awg::Awg40 => 1049000,
        }
    }

    /// Human-readable label: "4/0", "3/0", ..., "40".
    pub fn label(self) -> (label: &'static str)
        ensures
            label@ == awg_label(self),
    {
        match self {
            Awg::Awg4_0 => "4/0",
            Awg::Awg3_0 => "3/0",
            Awg::Awg2_0 => "2/0",
            Awg::Awg1_0 => "1/0",
            Awg::Awg1 => "1",
            Awg::Awg2 => "2",
            Awg::Awg3 => "3",
            Awg::Awg4 => "4",
            Awg::Awg5 => "5",
            Awg::Awg6 => "6",
            Awg::Awg7 => "7",
            Awg::Awg8 => "8",
            Awg::Awg9 => "9",
            Awg::Awg10 => "10",
            Awg::Awg11 => "11",
            Awg::Awg12 => "12",
            Awg::Awg13 => "13",
            Awg::Awg14 => "14",
            Awg::Awg15 => "15",
            Awg::Awg16 => "16",
            Awg::Awg17 => "17",
            Awg::Awg18 => "18",
            Awg::Awg19 => "19",
            Awg::Awg20 => "20",
            Awg::Awg21 => "21",
            Awg::Awg22 => "22",
            Awg::Awg23 => "23",
            Awg::Awg24 => "24",
            Awg::Awg25 => "25",
            Awg::Awg26 => "26",
            Awg::Awg27 => "27",
            Awg::Awg28 => "28",
            Awg::Awg29 => "29",
            Awg::Awg30 => "30",
            Awg::Awg31 => "31",
            Awg::Awg32 => "32",
            Awg::Awg33 => "33",
            Awg::Awg34 => "34",
            Awg::Awg35 => "35",
            Awg::Awg36 => "36",
            Awg::Awg37 => "37",
            Awg::Awg38 => "38",
            Awg::Awg39 => "39",
            Awg::Awg40 => "40",
        }
    }
}

/// Diameter of the gauge at a table position (tenths of a mil).
pub open spec fn diameter_at(i: int) -> nat {
    awg_diameter_tenth_mils(awg_at(i).unwrap())
}

/// Resistance of the gauge at a table position (milliohms per 1000 ft).
pub open spec fn resistance_at(i: int) -> nat {
    awg_resistance_milliohm_per_kft(awg_at(i).unwrap())
}

/// Table positions and gauges correspond one to one: the gauge at the
/// position of `a` is `a`.
pub proof fn lemma_index_roundtrip(a: Awg)
    ensures
        awg_index(a) < AWG_COUNT,
        awg_at(awg_index(a) as int) == Some(a),
{
}

/// Every position in the table holds a gauge, whose position is that one;
/// no position outside the table holds one.
pub proof fn lemma_position_roundtrip(i: int)
    ensures
        0 <= i < AWG_COUNT ==> (awg_at(i) matches Some(a) && awg_index(a) == i),
        !(0 <= i < AWG_COUNT) ==> awg_at(i) is None,
{
}

proof fn lemma_adjacent_gauges(k: int)
    requires
        0 <= k < AWG_COUNT - 1,
    ensures
        diameter_at(k) > diameter_at(k + 1),
        resistance_at(k) < resistance_at(k + 1),
{
}

proof fn lemma_gauge_order_by_position(i: int, j: int)
    requires
        0 <= i < j < AWG_COUNT,
    ensures
        diameter_at(i) > diameter_at(j),
        resistance_at(i) < resistance_at(j),
    decreases j - i,
{
    lemma_adjacent_gauges(j - 1);
    if i < j - 1 {
        lemma_gauge_order_by_position(i, j - 1);
    }
}

/// A gauge later in the table (a higher AWG number) is strictly thinner
/// and has strictly higher resistance per length.
pub proof fn lemma_higher_gauge_is_thinner(a: Awg, b: Awg)
    requires
        awg_index(a) < awg_index(b),
    ensures
        awg_diameter_tenth_mils(a) > awg_diameter_tenth_mils(b),
        awg_resistance_milliohm_per_kft(a) < awg_resistance_milliohm_per_kft(b),
{
    lemma_index_roundtrip(a);
    lemma_index_roundtrip(b);
    lemma_gauge_order_by_position(awg_index(a) as int, awg_index(b) as int);
}

/// The AWG geometric rule: six gauges apart the diameter doubles (the
/// ratio is 92^(6/39) ≈ 2.005). Each diameter is rounded to a tenth of a
/// mil, so the relation holds to within that rounding.
pub proof fn lemma_six_gauges_double_the_diameter(i: int)
    requires
        0 <= i,
        i + 6 < AWG_COUNT,
    ensures
        1000 * diameter_at(i) <= 2005 * diameter_at(i + 6) + 1500,
        2005 * diameter_at(i + 6) <= 1000 * diameter_at(i) + 1500,
{
}

/// Three gauges apart the resistance per length doubles (the cross-section
/// halves), to within the rounding of the listed values (4%).
pub proof fn lemma_three_gauges_double_the_resistance(i: int)
    requires
        0 <= i,
        i + 3 < AWG_COUNT,
    ensures
        25 * resistance_at(i + 3) <= 50 * resistance_at(i) + resistance_at(i + 3),
        50 * resistance_at(i) <= 25 * resistance_at(i + 3) + resistance_at(i + 3),
{
}

/// Resistance follows from the diameter and the resistivity of annealed
/// copper at 20 °C (10.371 Ω·cmil/ft): resistance times the diameter
/// squared stays within 4% of that constant for every gauge.
pub proof fn lemma_resistance_follows_from_diameter(i: int)
    requires
        0 <= i < AWG_COUNT,
    ensures
        96 * 1_037_100_000 <= 100 * resistance_at(i) * diameter_at(i) * diameter_at(i),
        100 * resistance_at(i) * diameter_at(i) * diameter_at(i) <= 104 * 1_037_100_000,
{
    if i == 0 {
        assert(resistance_at(0) == 50 && diameter_at(0) == 4600);
        assert(100 * 50 * 4600 * 4600 == 105800000000int) by (nonlinear_arith);
    } else if i == 1 {
        assert(resistance_at(1) == 60 && diameter_at(1) == 4096);
        assert(100 * 60 * 4096 * 4096 == 100663296000int) by (nonlinear_arith);
    } else if i == 2 {
        assert(resistance_at(2) == 80 && diameter_at(2) == 3648);
        assert(100 * 80 * 3648 * 3648 == 106463232000int) by (nonlinear_arith);
    } else if i == 3 {
        assert(resistance_at(3) == 100 && diameter_at(3) == 3249);
        assert(100 * 100 * 3249 * 3249 == 105560010000int) by (nonlinear_arith);
    } else if i == 4 {
        assert(resistance_at(4) == 120 && diameter_at(4) == 2893);
        assert(100 * 120 * 2893 * 2893 == 100433388000int) by (nonlinear_arith);
    } else if i == 5 {
        assert(resistance_at(5) == 160 && diameter_at(5) == 2576);
        assert(100 * 160 * 2576 * 2576 == 106172416000int) by (nonlinear_arith);
    } else if i == 6 {
        assert(resistance_at(6) == 200 && diameter_at(6) == 2294);
        assert(100 * 200 * 2294 * 2294 == 105248720000int) by (nonlinear_arith);
    } else if i == 7 {
        assert(resistance_at(7) == 250 && diameter_at(7) == 2043);
        assert(100 * 250 * 2043 * 2043 == 104346225000int) by (nonlinear_arith);
    } else if i == 8 {
        assert(resistance_at(8) == 310 && diameter_at(8) == 1819);
        assert(100 * 310 * 1819 * 1819 == 102571591000int) by (nonlinear_arith);
    } else if i == 9 {
        assert(resistance_at(9) == 400 && diameter_at(9) == 1620);
        assert(100 * 400 * 1620 * 1620 == 104976000000int) by (nonlinear_arith);
    } else if i == 10 {
        assert(resistance_at(10) == 500 && diameter_at(10) == 1443);
        assert(100 * 500 * 1443 * 1443 == 104112450000int) by (nonlinear_arith);
    } else if i == 11 {
        assert(resistance_at(11) == 630 && diameter_at(11) == 1285);
        assert(100 * 630 * 1285 * 1285 == 104027175000int) by (nonlinear_arith);
    } else if i == 12 {
        assert(resistance_at(12) == 790 && diameter_at(12) == 1144);
        assert(100 * 790 * 1144 * 1144 == 103390144000int) by (nonlinear_arith);
    } else if i == 13 {
        assert(resistance_at(13) == 1000 && diameter_at(13) == 1019);
        assert(100 * 1000 * 1019 * 1019 == 103836100000int) by (nonlinear_arith);
    } else if i == 14 {
        assert(resistance_at(14) == 1260 && diameter_at(14) == 907);
        assert(100 * 1260 * 907 * 907 == 103653774000int) by (nonlinear_arith);
    } else if i == 15 {
        assert(resistance_at(15) == 1590 && diameter_at(15) == 808);
        assert(100 * 1590 * 808 * 808 == 103805376000int) by (nonlinear_arith);
    } else if i == 16 {
        assert(resistance_at(16) == 2000 && diameter_at(16) == 720);
        assert(100 * 2000 * 720 * 720 == 103680000000int) by (nonlinear_arith);
    } else if i == 17 {
        assert(resistance_at(17) == 2530 && diameter_at(17) == 641);
        assert(100 * 2530 * 641 * 641 == 103952893000int) by (nonlinear_arith);
    } else if i == 18 {
        assert(resistance_at(18) == 3190 && diameter_at(18) == 571);
        assert(100 * 3190 * 571 * 571 == 104007079000int) by (nonlinear_arith);
    } else if i == 19 {
        assert(resistance_at(19) == 4020 && diameter_at(19) == 508);
        assert(100 * 4020 * 508 * 508 == 103741728000int) by (nonlinear_arith);
    } else if i == 20 {
        assert(resistance_at(20) == 5060 && diameter_at(20) == 453);
        assert(100 * 5060 * 453 * 453 == 103835754000int) by (nonlinear_arith);
    } else if i == 21 {
        assert(resistance_at(21) == 6390 && diameter_at(21) == 403);
        assert(100 * 6390 * 403 * 403 == 103779351000int) by (nonlinear_arith);
    } else if i == 22 {
        assert(resistance_at(22) == 8050 && diameter_at(22) == 359);
        assert(100 * 8050 * 359 * 359 == 103749205000int) by (nonlinear_arith);
    } else if i == 23 {
        assert(resistance_at(23) == 10150 && diameter_at(23) == 320);
        assert(100 * 10150 * 320 * 320 == 103936000000int) by (nonlinear_arith);
    } else if i == 24 {
        assert(resistance_at(24) == 12800 && diameter_at(24) == 285);
        assert(100 * 12800 * 285 * 285 == 103968000000int) by (nonlinear_arith);
    } else if i == 25 {
        assert(resistance_at(25) == 16140 && diameter_at(25) == 254);
        assert(100 * 16140 * 254 * 254 == 104128824000int) by (nonlinear_arith);
    } else if i == 26 {
        assert(resistance_at(26) == 20360 && diameter_at(26) == 226);
        assert(100 * 20360 * 226 * 226 == 103990736000int) by (nonlinear_arith);
    } else if i == 27 {
        assert(resistance_at(27) == 25670 && diameter_at(27) == 201);
        assert(100 * 25670 * 201 * 201 == 103709367000int) by (nonlinear_arith);
    } else if i == 28 {
        assert(resistance_at(28) == 32370 && diameter_at(28) == 179);
        assert(100 * 32370 * 179 * 179 == 103716717000int) by (nonlinear_arith);
    } else if i == 29 {
        assert(resistance_at(29) == 40810 && diameter_at(29) == 159);
        assert(100 * 40810 * 159 * 159 == 103171761000int) by (nonlinear_arith);
    } else if i == 30 {
        assert(resistance_at(30) == 51470 && diameter_at(30) == 142);
        assert(100 * 51470 * 142 * 142 == 103784108000int) by (nonlinear_arith);
    } else if i == 31 {
        assert(resistance_at(31) == 64900 && diameter_at(31) == 126);
        assert(100 * 64900 * 126 * 126 == 103035240000int) by (nonlinear_arith);
    } else if i == 32 {
        assert(resistance_at(32) == 81830 && diameter_at(32) == 113);
        assert(100 * 81830 * 113 * 113 == 104488727000int) by (nonlinear_arith);
    } else if i == 33 {
        assert(resistance_at(33) == 103200 && diameter_at(33) == 100);
        assert(100 * 103200 * 100 * 100 == 103200000000int) by (nonlinear_arith);
    } else if i == 34 {
        assert(resistance_at(34) == 130100 && diameter_at(34) == 89);
        assert(100 * 130100 * 89 * 89 == 103052210000int) by (nonlinear_arith);
    } else if i == 35 {
        assert(resistance_at(35) == 164100 && diameter_at(35) == 80);
        assert(100 * 164100 * 80 * 80 == 105024000000int) by (nonlinear_arith);
    } else if i == 36 {
        assert(resistance_at(36) == 206900 && diameter_at(36) == 71);
        assert(100 * 206900 * 71 * 71 == 104298290000int) by (nonlinear_arith);
    } else if i == 37 {
        assert(resistance_at(37) == 260900 && diameter_at(37) == 63);
        assert(100 * 260900 * 63 * 63 == 103551210000int) by (nonlinear_arith);
    } else if i == 38 {
        assert(resistance_at(38) == 329000 && diameter_at(38) == 56);
        assert(100 * 329000 * 56 * 56 == 103174400000int) by (nonlinear_arith);
    } else if i == 39 {
        assert(resistance_at(39) == 414800 && diameter_at(39) == 50);
        assert(100 * 414800 * 50 * 50 == 103700000000int) by (nonlinear_arith);
    } else if i == 40 {
        assert(resistance_at(40) == 523100 && diameter_at(40) == 45);
        assert(100 * 523100 * 45 * 45 == 105927750000int) by (nonlinear_arith);
    } else if i == 41 {
        assert(resistance_at(41) == 659600 && diameter_at(41) == 40);
        assert(100 * 659600 * 40 * 40 == 105536000000int) by (nonlinear_arith);
    } else if i == 42 {
        assert(resistance_at(42) == 831800 && diameter_at(42) == 35);
        assert(100 * 831800 * 35 * 35 == 101895500000int) by (nonlinear_arith);
    } else if i == 43 {
        assert(resistance_at(43) == 1049000 && diameter_at(43) == 31);
        assert(100 * 1049000 * 31 * 31 == 100808900000int) by (nonlinear_arith);
    }
}

} // verus!
