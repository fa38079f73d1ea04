//! Physical constants held exactly as integers.

use vstd::prelude::*;

verus! {

/// Copper melting point in hundredths of a degree Celsius (RSC / CRC value:
/// 1084.62 °C).
pub const COPPER_MELTING_POINT_CENTI_C: u32 = 108462;

} // verus!
