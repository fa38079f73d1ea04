//! Verified core of a PCB design calculator toolkit.
//!
//! The library holds the parts of the toolkit that are exact: the copper,
//! plating, wire-gauge, conductor-spacing and material tables (numbers kept
//! as integers in small units, so nothing is rounded), the text rules that
//! turn command-line and unit-annotated input into choices and units, and
//! the provenance record every calculator carries. Each function states what
//! it returns in its contract, and the laws the tables obey are proved.

pub mod cli_args;
pub mod constants;
pub mod copper;
pub mod differential;
pub mod fusing;
pub mod inductor;
pub mod materials;
pub mod model;
pub mod spacing;
pub mod text;
pub mod units;
pub mod wire_gauge;
