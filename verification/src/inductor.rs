//! Planar spiral inductor geometry.
//!
//! The inductance itself (Mohan, Hershenson, Boyd & Lee, IEEE JSSC 34(10)
//! 1999) is a floating-point formula; this module holds the geometry
//! choices the calculator is driven by.

use vstd::prelude::*;

verus! {

/// Spiral geometry shape.
#[derive(Debug, Clone, Copy, PartialEq, Eq, Structural)]
pub enum SpiralShape {
    Square,
    Hexagonal,
    Octagonal,
    Circle,
}

/// The name of a spiral shape.
pub open spec fn shape_name(s: SpiralShape) -> Seq<char> {
    match s {
        SpiralShape::Square => "Square"@,
        SpiralShape::Hexagonal => "Hexagonal"@,
        SpiralShape::Octagonal => "Octagonal"@,
        SpiralShape::Circle => "Circle"@,
    }
}

} // verus!
