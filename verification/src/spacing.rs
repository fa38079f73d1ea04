//! IPC-2221C minimum conductor spacing (Table 6-1).
//!
//! The table is held exactly, in micrometres, as published in millimetres;
//! mils are derived from it. The result is the table minimum, so presenting
//! it rounded must round up, never down.
//!
//! Scope: Table 6-1 gives electrical clearances for DC or AC peak voltage
//! between conductors under the construction and coating assumptions of
//! each category. A lookup is not a certification of insulation or safety
//! compliance.

use vstd::prelude::*;

use crate::copper::digit_char;

verus! {

/// IPC-2221C device type categories (Saturn PCB Toolkit labels).
#[derive(Debug, Clone, Copy, PartialEq, Eq, Structural)]
pub enum DeviceType {
    /// Internal conductors.
    B1,
    /// External conductors, uncoated, sea level to 3050 m.
    B2,
    /// External conductors, uncoated, over 3050 m or in a vacuum.
    B3,
    /// External conductors covered with solder mask (any elevation).
    B4,
    /// External conductors, coated (conformal coating), any elevation or vacuum.
    B5,
    /// External component lead/termination, coated, any elevation or vacuum.
    A6,
    /// External component lead/termination, uncoated, sea level to 3050 m.
    A7,
    /// External component lead/termination, uncoated, over 3050 m or in a vacuum.
    A8,
}

/// Number of voltage columns of the table.
pub const COLUMN_COUNT: usize = 9;

/// Row of a category in the table (B1 first, A8 last).
pub open spec fn device_row(d: DeviceType) -> nat {
    match d {
        DeviceType::B1 => 0,
        DeviceType::B2 => 1,
        DeviceType::B3 => 2,
        DeviceType::B4 => 3,
        DeviceType::B5 => 4,
        DeviceType::A6 => 5,
        DeviceType::A7 => 6,
        DeviceType::A8 => 7,
    }
}

/// The code of a category: `B` for bare-board conductors (the first five
/// rows), `A` for assemblies, then the row number counted from one.
pub open spec fn category_code(d: DeviceType) -> Seq<char> {
    seq![if device_row(d) < 5 { 'B' } else { 'A' }, digit_char(device_row(d) + 1)]
}

/// Upper bound (inclusive, volts) of each voltage column:
/// 0–15, 16–30, 31–50, 51–100, 101–150, 151–170, 171–250, 251–300, 301–500.
pub open spec fn column_max_v() -> Seq<nat> {
    seq![15, 30, 50, 100, 150, 170, 250, 300, 500]
}

/// The published minimum spacings of a category, column by column, in µm.
pub open spec fn spacing_row_um(d: DeviceType) -> Seq<nat> {
    match d {
        DeviceType::B1 => seq![50, 50, 100, 100, 200, 200, 200, 200, 250],
        DeviceType::B2 => seq![100, 100, 640, 640, 640, 1250, 1250, 1250, 2500],
        DeviceType::B3 => seq![100, 100, 640, 1500, 3200, 3200, 6400, 12500, 12500],
        DeviceType::B4 => seq![75, 75, 300, 300, 800, 800, 800, 800, 1600],
        DeviceType::B5 => seq![75, 75, 130, 130, 400, 400, 400, 400, 800],
        DeviceType::A6 => seq![130, 130, 130, 130, 400, 400, 400, 400, 800],
        DeviceType::A7 => seq![130, 250, 400, 500, 800, 800, 800, 800, 1500],
        DeviceType::A8 => seq![130, 250, 800, 1000, 1600, 1600, 1600, 1600, 3000],
    }
}

/// Slope above 500 V, in nm of spacing per volt:
/// `spacing = table[301–500 V] + (V − 500) × slope`.
pub open spec fn slope_nm_per_v(d: DeviceType) -> nat {
    match d {
        DeviceType::B1 => 2500,
        DeviceType::B2 => 5000,
        DeviceType::B3 => 25000,
        DeviceType::B4 => 3050,
        DeviceType::B5 => 3050,
        DeviceType::A6 => 3050,
        DeviceType::A7 => 3050,
        DeviceType::A8 => 6100,
    }
}

/// Human-readable description of a category.
pub open spec fn device_description(d: DeviceType) -> Seq<char> {
    match d {
        DeviceType::B1 => "internal conductors"@,
        DeviceType::B2 => "external conductors, uncoated, sea level to 3050 m"@,
        DeviceType::B3 => "external conductors, uncoated, over 3050 m or in a vacuum"@,
        DeviceType::B4 => "external conductors covered with solder mask, any elevation"@,
        DeviceType::B5 => "external conductors, conformally coated, any elevation or vacuum"@,
        DeviceType::A6 => "external component leads/terminations, coated, any elevation or vacuum"@,
        DeviceType::A7 => "external component leads/terminations, uncoated, sea level to 3050 m"@,
        DeviceType::A8 => "external component leads/terminations, uncoated, over 3050 m or in a vacuum"@,
    }
}

impl DeviceType {
    /// Human-readable category description.
    pub fn description(self) -> (text: &'static str)
        ensures
            text@ == device_description(self),
    {
        match self {
            DeviceType::B1 => "internal conductors",
            DeviceType::B2 => "external conductors, uncoated, sea level to 3050 m",
            DeviceType::B3 => "external conductors, uncoated, over 3050 m or in a vacuum",
            DeviceType::B4 => "external conductors covered with solder mask, any elevation",
            DeviceType::B5 => "external conductors, conformally coated, any elevation or vacuum",
            DeviceType::A6 => "external component leads/terminations, coated, any elevation or vacuum",
            DeviceType::A7 => "external component leads/terminations, uncoated, sea level to 3050 m",
            DeviceType::A8 => "external component leads/terminations, uncoated, over 3050 m or in a vacuum",
        }
    }

    /// All categories, in table order.
    pub const ALL: [DeviceType; 8] = [
        DeviceType::B1,
        DeviceType::B2,
        DeviceType::B3,
        DeviceType::B4,
        DeviceType::B5,
        DeviceType::A6,
        DeviceType::A7,
        DeviceType::A8,
    ];

    /// Published minimum spacing (µm) of this category in voltage column `column`.
    pub fn spacing_um(self, column: usize) -> (um: u32)
        requires
            column < COLUMN_COUNT,
        ensures
            um == spacing_row_um(self)[column as int],
    {
        let row: [u32; 9] = match self {
            DeviceType::B1 => [50, 50, 100, 100, 200, 200, 200, 200, 250],
            DeviceType::B2 => [100, 100, 640, 640, 640, 1250, 1250, 1250, 2500],
            DeviceType::B3 => [100, 100, 640, 1500, 3200, 3200, 6400, 12500, 12500],
            DeviceType::B4 => [75, 75, 300, 300, 800, 800, 800, 800, 1600],
            DeviceType::B5 => [75, 75, 130, 130, 400, 400, 400, 400, 800],
            DeviceType::A6 => [130, 130, 130, 130, 400, 400, 400, 400, 800],
            DeviceType::A7 => [130, 250, 400, 500, 800, 800, 800, 800, 1500],
            DeviceType::A8 => [130, 250, 800, 1000, 1600, 1600, 1600, 1600, 3000],
        };
        row[column]
    }

    /// Slope above 500 V, in nm of spacing per volt.
    pub fn slope_nm_per_volt(self) -> (nm: u32)
        ensures
            nm == slope_nm_per_v(self),
    {
        match self {
            DeviceType::B1 => 2500,
            DeviceType::B2 => 5000,
            DeviceType::B3 => 25000,
            DeviceType::B4 => 3050,
            DeviceType::B5 => 3050,
            DeviceType::A6 => 3050,
            DeviceType::A7 => 3050,
            DeviceType::A8 => 6100,
        }
    }
}

/// Upper bound (inclusive, volts) of voltage column `column`.
pub fn column_max_volts(column: usize) -> (v: u32)
    requires
        column < COLUMN_COUNT,
    ensures
        v == column_max_v()[column as int],
{
    let maxima: [u32; 9] = [15, 30, 50, 100, 150, 170, 250, 300, 500];
    maxima[column]
}

/// Row of a category in the table: its position in [`DeviceType::ALL`].
pub fn device_index(d: DeviceType) -> (row: usize)
    ensures
        row == device_row(d),
        row < 8,
{
    let all = DeviceType::ALL;
    let mut i: usize = 0;
    while i < 8
        invariant
            i <= 8,
            all@ == seq![
                DeviceType::B1,
                DeviceType::B2,
                DeviceType::B3,
                DeviceType::B4,
                DeviceType::B5,
                DeviceType::A6,
                DeviceType::A7,
                DeviceType::A8,
            ],
            forall|k: int| 0 <= k < i ==> all@[k] != d,
        decreases 8 - i,
    {
        if all[i] == d {
            return i;
        }
        i = i + 1;
    }
    assert(false);
    0
}

/// The column of the table that holds a voltage, given rounded up to whole
/// volts: the first column whose upper bound it does not exceed, or `None`
/// above 500 V, where the slope of the category applies. Since the bounds
/// are whole volts, a voltage lies within a bound exactly when its rounded
/// up value does.
pub open spec fn column_of(volts: nat) -> Option<nat> {
    if volts <= 15 {
        Some(0)
    } else if volts <= 30 {
        Some(1)
    } else if volts <= 50 {
        Some(2)
    } else if volts <= 100 {
        Some(3)
    } else if volts <= 150 {
        Some(4)
    } else if volts <= 170 {
        Some(5)
    } else if volts <= 250 {
        Some(6)
    } else if volts <= 300 {
        Some(7)
    } else if volts <= 500 {
        Some(8)
    } else {
        None
    }
}

/// Column of the table for a voltage rounded up to whole volts: the first
/// column whose upper bound is not below it, `None` above the last column.
pub fn voltage_column(volts: u64) -> (column: Option<usize>)
    ensures
        column == (match column_of(volts as nat) {
            Some(c) => Some(c as usize),
            None => None,
        }),
        match column {
            Some(c) => c < COLUMN_COUNT && volts <= column_max_v()[c as int] && forall|k: int|
                0 <= k < c ==> column_max_v()[k] < volts,
            None => forall|k: int| 0 <= k < COLUMN_COUNT ==> column_max_v()[k] < volts,
        },
{
    let mut c: usize = 0;
    while c < COLUMN_COUNT
        invariant
            c <= COLUMN_COUNT,
            forall|k: int| 0 <= k < c ==> column_max_v()[k] < volts,
        decreases COLUMN_COUNT - c,
    {
        if volts <= column_max_volts(c) as u64 {
            return Some(c);
        }
        c = c + 1;
    }
    assert(column_max_v()[8] < volts);
    None
}

/// Within the table, a higher voltage never calls for a smaller spacing:
/// the column that holds it is never an earlier one.
pub proof fn lemma_spacing_never_shrinks_with_voltage(d: DeviceType, v1: nat, v2: nat)
    requires
        v1 <= v2 <= 500,
    ensures
        column_of(v1) is Some,
        column_of(v2) is Some,
        column_of(v1)->Some_0 <= column_of(v2)->Some_0,
        spacing_row_um(d)[column_of(v1)->Some_0 as int] <= spacing_row_um(d)[column_of(v2)->Some_0 as int],
{
    lemma_spacing_monotonic_in_voltage(d, column_of(v1)->Some_0 as int, column_of(v2)->Some_0 as int);
}

/// IPC-2221C Table 6-1 as the standard reads for a whole voltage, per
/// category and voltage band (bands with the same minimum merged), in nm;
/// above 500 V the 301–500 V minimum grows by the category's slope per volt.
pub open spec fn published_min_spacing_nm(d: DeviceType, volts: nat) -> nat {
    match d {
        DeviceType::B1 => if volts <= 30 { 50_000 } else if volts <= 100 { 100_000 }
            else if volts <= 300 { 200_000 } else if volts <= 500 { 250_000 }
            else { 250_000 + 2_500 * (volts - 500) as nat },
        DeviceType::B2 => if volts <= 30 { 100_000 } else if volts <= 150 { 640_000 }
            else if volts <= 300 { 1_250_000 } else if volts <= 500 { 2_500_000 }
            else { 2_500_000 + 5_000 * (volts - 500) as nat },
        DeviceType::B3 => if volts <= 30 { 100_000 } else if volts <= 50 { 640_000 }
            else if volts <= 100 { 1_500_000 } else if volts <= 170 { 3_200_000 }
            else if volts <= 250 { 6_400_000 } else if volts <= 500 { 12_500_000 }
            else { 12_500_000 + 25_000 * (volts - 500) as nat },
        DeviceType::B4 => if volts <= 30 { 75_000 } else if volts <= 100 { 300_000 }
            else if volts <= 300 { 800_000 } else if volts <= 500 { 1_600_000 }
            else { 1_600_000 + 3_050 * (volts - 500) as nat },
        DeviceType::B5 => if volts <= 30 { 75_000 } else if volts <= 100 { 130_000 }
            else if volts <= 300 { 400_000 } else if volts <= 500 { 800_000 }
            else { 800_000 + 3_050 * (volts - 500) as nat },
        DeviceType::A6 => if volts <= 100 { 130_000 }
            else if volts <= 300 { 400_000 } else if volts <= 500 { 800_000 }
            else { 800_000 + 3_050 * (volts - 500) as nat },
        DeviceType::A7 => if volts <= 15 { 130_000 } else if volts <= 30 { 250_000 }
            else if volts <= 50 { 400_000 } else if volts <= 100 { 500_000 }
            else if volts <= 300 { 800_000 } else if volts <= 500 { 1_500_000 }
            else { 1_500_000 + 3_050 * (volts - 500) as nat },
        DeviceType::A8 => if volts <= 15 { 130_000 } else if volts <= 30 { 250_000 }
            else if volts <= 50 { 800_000 } else if volts <= 100 { 1_000_000 }
            else if volts <= 300 { 1_600_000 } else if volts <= 500 { 3_000_000 }
            else { 3_000_000 + 6_100 * (volts - 500) as nat },
    }
}

/// The minimum spacing (nm) that the library's table gives for a whole
/// voltage: the cell of the column that holds it, or above 500 V the last
/// cell plus the slope for each volt beyond.
pub open spec fn table_spacing_nm(d: DeviceType, volts: nat) -> nat {
    match column_of(volts) {
        Some(c) => 1000 * spacing_row_um(d)[c as int],
        None => 1000 * spacing_row_um(d)[8] + slope_nm_per_v(d) * (volts - 500) as nat,
    }
}

/// The table, its voltage columns and its slopes give the published
/// IPC-2221C Table 6-1 minimum at every voltage and for every category.
pub proof fn lemma_table_matches_published(d: DeviceType, volts: nat)
    ensures
        table_spacing_nm(d, volts) == published_min_spacing_nm(d, volts),
{
}

/// The categories are ordered as the standard's conditions are: internal
/// conductors never need more than any other category; conformal coating
/// never more than solder mask; altitude or vacuum never less than sea
/// level; coated leads never more than uncoated ones.
pub proof fn lemma_categories_ordered(c: int)
    requires
        0 <= c < COLUMN_COUNT,
    ensures
        forall|d: DeviceType| spacing_row_um(DeviceType::B1)[c] <= #[trigger] spacing_row_um(d)[c],
        spacing_row_um(DeviceType::B5)[c] <= spacing_row_um(DeviceType::B4)[c],
        spacing_row_um(DeviceType::B2)[c] <= spacing_row_um(DeviceType::B3)[c],
        spacing_row_um(DeviceType::A7)[c] <= spacing_row_um(DeviceType::A8)[c],
        spacing_row_um(DeviceType::A6)[c] <= spacing_row_um(DeviceType::A7)[c],
{
    assert forall|d: DeviceType| spacing_row_um(DeviceType::B1)[c] <= #[trigger] spacing_row_um(d)[c] by {
        match d {
            DeviceType::B1 => {},
            DeviceType::B2 => {},
            DeviceType::B3 => {},
            DeviceType::B4 => {},
            DeviceType::B5 => {},
            DeviceType::A6 => {},
            DeviceType::A7 => {},
            DeviceType::A8 => {},
        }
    }
}

/// Within each category the published spacing never decreases as the
/// voltage column rises.
pub proof fn lemma_spacing_monotonic_in_voltage(d: DeviceType, i: int, j: int)
    requires
        0 <= i <= j < COLUMN_COUNT,
    ensures
        spacing_row_um(d)[i] <= spacing_row_um(d)[j],
{
}

/// The voltage columns are listed in strictly increasing order.
pub proof fn lemma_columns_increase(i: int, j: int)
    requires
        0 <= i < j < COLUMN_COUNT,
    ensures
        column_max_v()[i] < column_max_v()[j],
{
}

} // verus!
