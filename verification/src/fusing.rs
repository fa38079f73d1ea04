//! Fusing-current constants.

use vstd::prelude::*;

verus! {

/// Copper melting temperature used by the Onderdonk fusing equation, in
/// hundredths of a degree Celsius. It is the shared constant, not a copy.
pub const COPPER_MELTING_TEMP_CENTI_C: u32 = crate::constants::COPPER_MELTING_POINT_CENTI_C;

} // verus!
