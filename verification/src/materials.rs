//! PCB substrate material presets.
//!
//! Every entry reproduces the material table of Saturn PCB Toolkit v8.44.
//! The values are compatibility presets, not manufacturer engineering data:
//! each dielectric constant is a single scalar with no stated test method,
//! frequency, resin content, glass style or tolerance. For an
//! impedance-controlled design use the laminate datasheet value.
//!
//! Numbers are held exactly as listed: the dielectric constant and Saturn's
//! roughness factor in hundredths, the glass transition temperature in °C.
//! Known convention mismatches are recorded in each entry's `note`.

use vstd::prelude::*;

use crate::text::{eq_ignore_ascii_case, lemma_eq_ignore_ascii_case_equivalence, str_eq_ignore_ascii_case};

verus! {

/// Where a preset's numbers come from.
#[derive(Debug, Clone, Copy, PartialEq, Eq, Structural)]
pub enum MaterialSource {
    /// Value as listed by Saturn PCB Toolkit v8.44 (compatibility preset).
    SaturnV844,
}

/// A PCB substrate material with dielectric properties.
#[derive(Debug, Clone, Copy, PartialEq)]
pub struct Material {
    pub name: &'static str,
    /// Relative permittivity (dielectric constant) in hundredths (460 for 4.60).
    pub er_centi: u32,
    /// Glass transition temperature (°C), if listed.
    pub tg_celsius: Option<u32>,
    /// Saturn's surface roughness correction factor in hundredths (98 for the
    /// FR-4 family, 100 for others). Saturn-specific, not a measured quantity.
    pub roughness_centi: u32,
    /// Provenance of the numbers.
    pub source: MaterialSource,
    /// Caveats about the entry (product identity, Dk convention).
    pub note: Option<&'static str>,
}

/// Number of built-in presets.
pub const MATERIAL_COUNT: usize = 45;

/// The preset at a position of the table.
pub open spec fn material_at(i: int) -> Material
    recommends
        0 <= i < MATERIAL_COUNT,
{
    if i == 0 {
        Material {
            name: "FR-4 STD",
            er_centi: 460,
            tg_celsius: Some(130),
            roughness_centi: 98,
            source: MaterialSource::SaturnV844,
            note: Some("Generic FR-4; real laminates range roughly 4.2–4.8 depending on resin content and frequency"),
        }
    } else if i == 1 {
        Material {
            name: "FR-5",
            er_centi: 430,
            tg_celsius: Some(170),
            roughness_centi: 98,
            source: MaterialSource::SaturnV844,
            note: None,
        }
    } else if i == 2 {
        Material {
            name: "FR406",
            er_centi: 460,
            tg_celsius: Some(170),
            roughness_centi: 98,
            source: MaterialSource::SaturnV844,
            note: None,
        }
    } else if i == 3 {
        Material {
            name: "FR408",
            er_centi: 380,
            tg_celsius: Some(180),
            roughness_centi: 98,
            source: MaterialSource::SaturnV844,
            note: None,
        }
    } else if i == 4 {
        Material {
            name: "Getek ML200C",
            er_centi: 380,
            tg_celsius: Some(175),
            roughness_centi: 98,
            source: MaterialSource::SaturnV844,
            note: None,
        }
    } else if i == 5 {
        Material {
            name: "Getek ML200D",
            er_centi: 390,
            tg_celsius: Some(175),
            roughness_centi: 98,
            source: MaterialSource::SaturnV844,
            note: None,
        }
    } else if i == 6 {
        Material {
            name: "Getek ML200M",
            er_centi: 380,
            tg_celsius: Some(175),
            roughness_centi: 98,
            source: MaterialSource::SaturnV844,
            note: None,
        }
    } else if i == 7 {
        Material {
            name: "Getek RG200D",
            er_centi: 420,
            tg_celsius: Some(175),
            roughness_centi: 98,
            source: MaterialSource::SaturnV844,
            note: None,
        }
    } else if i == 8 {
        Material {
            name: "Isola P95",
            er_centi: 378,
            tg_celsius: Some(260),
            roughness_centi: 100,
            source: MaterialSource::SaturnV844,
            note: None,
        }
    } else if i == 9 {
        Material {
            name: "Isola P96",
            er_centi: 378,
            tg_celsius: Some(260),
            roughness_centi: 100,
            source: MaterialSource::SaturnV844,
            note: None,
        }
    } else if i == 10 {
        Material {
            name: "Isola P26N",
            er_centi: 390,
            tg_celsius: Some(250),
            roughness_centi: 100,
            source: MaterialSource::SaturnV844,
            note: None,
        }
    } else if i == 11 {
        Material {
            name: "RO2800",
            er_centi: 294,
            tg_celsius: None,
            roughness_centi: 100,
            source: MaterialSource::SaturnV844,
            note: None,
        }
    } else if i == 12 {
        Material {
            name: "RO3003",
            er_centi: 300,
            tg_celsius: None,
            roughness_centi: 100,
            source: MaterialSource::SaturnV844,
            note: None,
        }
    } else if i == 13 {
        Material {
            name: "RO3006",
            er_centi: 615,
            tg_celsius: None,
            roughness_centi: 100,
            source: MaterialSource::SaturnV844,
            note: None,
        }
    } else if i == 14 {
        Material {
            name: "RO3010",
            er_centi: 1020,
            tg_celsius: None,
            roughness_centi: 100,
            source: MaterialSource::SaturnV844,
            note: None,
        }
    } else if i == 15 {
        Material {
            name: "RO4003",
            er_centi: 338,
            tg_celsius: Some(280),
            roughness_centi: 100,
            source: MaterialSource::SaturnV844,
            note: Some("Saturn value 3.38 matches Rogers RO4003C *process* Dk (10 GHz); the RO4003C *design* Dk is 3.55"),
        }
    } else if i == 16 {
        Material {
            name: "RO4350",
            er_centi: 366,
            tg_celsius: Some(280),
            roughness_centi: 100,
            source: MaterialSource::SaturnV844,
            note: Some("Saturn value 3.66 matches Rogers RO4350B *design* Dk; the RO4350B *process* Dk (10 GHz) is 3.48"),
        }
    } else if i == 17 {
        Material {
            name: "RT5500",
            er_centi: 250,
            tg_celsius: Some(260),
            roughness_centi: 100,
            source: MaterialSource::SaturnV844,
            note: None,
        }
    } else if i == 18 {
        Material {
            name: "RT5870",
            er_centi: 235,
            tg_celsius: Some(260),
            roughness_centi: 100,
            source: MaterialSource::SaturnV844,
            note: None,
        }
    } else if i == 19 {
        Material {
            name: "RT5880",
            er_centi: 220,
            tg_celsius: Some(260),
            roughness_centi: 100,
            source: MaterialSource::SaturnV844,
            note: None,
        }
    } else if i == 20 {
        Material {
            name: "RT6002",
            er_centi: 294,
            tg_celsius: None,
            roughness_centi: 100,
            source: MaterialSource::SaturnV844,
            note: None,
        }
    } else if i == 21 {
        Material {
            name: "RT6006",
            er_centi: 615,
            tg_celsius: None,
            roughness_centi: 100,
            source: MaterialSource::SaturnV844,
            note: None,
        }
    } else if i == 22 {
        Material {
            name: "RT6010",
            er_centi: 1020,
            tg_celsius: None,
            roughness_centi: 100,
            source: MaterialSource::SaturnV844,
            note: None,
        }
    } else if i == 23 {
        Material {
            name: "Teflon PTFE",
            er_centi: 210,
            tg_celsius: Some(240),
            roughness_centi: 100,
            source: MaterialSource::SaturnV844,
            note: None,
        }
    } else if i == 24 {
        Material {
            name: "Arlon 25N",
            er_centi: 338,
            tg_celsius: Some(260),
            roughness_centi: 100,
            source: MaterialSource::SaturnV844,
            note: None,
        }
    } else if i == 25 {
        Material {
            name: "Arlon 33N",
            er_centi: 425,
            tg_celsius: Some(250),
            roughness_centi: 100,
            source: MaterialSource::SaturnV844,
            note: None,
        }
    } else if i == 26 {
        Material {
            name: "Arlon 85N",
            er_centi: 420,
            tg_celsius: Some(250),
            roughness_centi: 100,
            source: MaterialSource::SaturnV844,
            note: None,
        }
    } else if i == 27 {
        Material {
            name: "PCL-FR-226",
            er_centi: 450,
            tg_celsius: Some(140),
            roughness_centi: 98,
            source: MaterialSource::SaturnV844,
            note: None,
        }
    } else if i == 28 {
        Material {
            name: "PCL-FR-240",
            er_centi: 450,
            tg_celsius: Some(140),
            roughness_centi: 98,
            source: MaterialSource::SaturnV844,
            note: None,
        }
    } else if i == 29 {
        Material {
            name: "PCL-FR-370",
            er_centi: 450,
            tg_celsius: Some(175),
            roughness_centi: 98,
            source: MaterialSource::SaturnV844,
            note: None,
        }
    } else if i == 30 {
        Material {
            name: "PCL-FR-370HR",
            er_centi: 460,
            tg_celsius: Some(180),
            roughness_centi: 98,
            source: MaterialSource::SaturnV844,
            note: None,
        }
    } else if i == 31 {
        Material {
            name: "N4000-7 EF",
            er_centi: 410,
            tg_celsius: Some(165),
            roughness_centi: 98,
            source: MaterialSource::SaturnV844,
            note: None,
        }
    } else if i == 32 {
        Material {
            name: "N4000-13",
            er_centi: 370,
            tg_celsius: Some(210),
            roughness_centi: 98,
            source: MaterialSource::SaturnV844,
            note: None,
        }
    } else if i == 33 {
        Material {
            name: "N4000-13SI",
            er_centi: 340,
            tg_celsius: Some(210),
            roughness_centi: 98,
            source: MaterialSource::SaturnV844,
            note: None,
        }
    } else if i == 34 {
        Material {
            name: "N4000-13 EP",
            er_centi: 370,
            tg_celsius: Some(210),
            roughness_centi: 98,
            source: MaterialSource::SaturnV844,
            note: None,
        }
    } else if i == 35 {
        Material {
            name: "N4000-13 EPSI",
            er_centi: 340,
            tg_celsius: Some(210),
            roughness_centi: 98,
            source: MaterialSource::SaturnV844,
            note: None,
        }
    } else if i == 36 {
        Material {
            name: "N4000-29",
            er_centi: 450,
            tg_celsius: Some(185),
            roughness_centi: 98,
            source: MaterialSource::SaturnV844,
            note: None,
        }
    } else if i == 37 {
        Material {
            name: "N7000-1",
            er_centi: 390,
            tg_celsius: Some(260),
            roughness_centi: 100,
            source: MaterialSource::SaturnV844,
            note: None,
        }
    } else if i == 38 {
        Material {
            name: "Ventec VT-47",
            er_centi: 460,
            tg_celsius: Some(180),
            roughness_centi: 98,
            source: MaterialSource::SaturnV844,
            note: None,
        }
    } else if i == 39 {
        Material {
            name: "Ventec VT-901",
            er_centi: 415,
            tg_celsius: Some(250),
            roughness_centi: 100,
            source: MaterialSource::SaturnV844,
            note: None,
        }
    } else if i == 40 {
        Material {
            name: "Ventec VT-90H",
            er_centi: 415,
            tg_celsius: Some(250),
            roughness_centi: 100,
            source: MaterialSource::SaturnV844,
            note: None,
        }
    } else if i == 41 {
        Material {
            name: "Megtron6",
            er_centi: 340,
            tg_celsius: Some(185),
            roughness_centi: 100,
            source: MaterialSource::SaturnV844,
            note: None,
        }
    } else if i == 42 {
        Material {
            name: "Kappa 438",
            er_centi: 438,
            tg_celsius: Some(280),
            roughness_centi: 100,
            source: MaterialSource::SaturnV844,
            note: None,
        }
    } else if i == 43 {
        Material {
            name: "Kapton",
            er_centi: 340,
            tg_celsius: Some(400),
            roughness_centi: 100,
            source: MaterialSource::SaturnV844,
            note: None,
        }
    } else {
        Material {
            name: "Air",
            er_centi: 100,
            tg_celsius: None,
            roughness_centi: 100,
            source: MaterialSource::SaturnV844,
            note: None,
        }
    }
}

/// The built-in presets, in table order.
pub open spec fn material_table() -> Seq<Material> {
    Seq::new(MATERIAL_COUNT as nat, |i: int| material_at(i))
}

/// `i` is the position of the first preset whose name equals `name` up to
/// ASCII case.
pub open spec fn first_named(name: Seq<char>, i: int) -> bool {
    &&& 0 <= i < MATERIAL_COUNT
    &&& eq_ignore_ascii_case(material_at(i).name@, name)
    &&& forall|k: int| 0 <= k < i ==> !eq_ignore_ascii_case(#[trigger] material_at(k).name@, name)
}

fn preset(i: usize) -> (m: Material)
    requires
        i < MATERIAL_COUNT,
    ensures
        m == material_at(i as int),
{
    match i {
        0 => Material {
                name: "FR-4 STD",
                er_centi: 460,
                tg_celsius: Some(130),
                roughness_centi: 98,
                source: MaterialSource::SaturnV844,
                note: Some("Generic FR-4; real laminates range roughly 4.2–4.8 depending on resin content and frequency"),
            },
        1 => Material {
                name: "FR-5",
                er_centi: 430,
                tg_celsius: Some(170),
                roughness_centi: 98,
                source: MaterialSource::SaturnV844,
                note: None,
            },
        2 => Material {
                name: "FR406",
                er_centi: 460,
                tg_celsius: Some(170),
                roughness_centi: 98,
                source: MaterialSource::SaturnV844,
                note: None,
            },
        3 => Material {
                name: "FR408",
                er_centi: 380,
                tg_celsius: Some(180),
                roughness_centi: 98,
                source: MaterialSource::SaturnV844,
                note: None,
            },
        4 => Material {
                name: "Getek ML200C",
                er_centi: 380,
                tg_celsius: Some(175),
                roughness_centi: 98,
                source: MaterialSource::SaturnV844,
                note: None,
            },
        5 => Material {
                name: "Getek ML200D",
                er_centi: 390,
                tg_celsius: Some(175),
                roughness_centi: 98,
                source: MaterialSource::SaturnV844,
                note: None,
            },
        6 => Material {
                name: "Getek ML200M",
                er_centi: 380,
                tg_celsius: Some(175),
                roughness_centi: 98,
                source: MaterialSource::SaturnV844,
                note: None,
            },
        7 => Material {
                name: "Getek RG200D",
                er_centi: 420,
                tg_celsius: Some(175),
                roughness_centi: 98,
                source: MaterialSource::SaturnV844,
                note: None,
            },
        8 => Material {
                name: "Isola P95",
                er_centi: 378,
                tg_celsius: Some(260),
                roughness_centi: 100,
                source: MaterialSource::SaturnV844,
                note: None,
            },
        9 => Material {
                name: "Isola P96",
                er_centi: 378,
                tg_celsius: Some(260),
                roughness_centi: 100,
                source: MaterialSource::SaturnV844,
                note: None,
            },
        10 => Material {
                name: "Isola P26N",
                er_centi: 390,
                tg_celsius: Some(250),
                roughness_centi: 100,
                source: MaterialSource::SaturnV844,
                note: None,
            },
        11 => Material {
                name: "RO2800",
                er_centi: 294,
                tg_celsius: None,
                roughness_centi: 100,
                source: MaterialSource::SaturnV844,
                note: None,
            },
        12 => Material {
                name: "RO3003",
                er_centi: 300,
                tg_celsius: None,
                roughness_centi: 100,
                source: MaterialSource::SaturnV844,
                note: None,
            },
        13 => Material {
                name: "RO3006",
                er_centi: 615,
                tg_celsius: None,
                roughness_centi: 100,
                source: MaterialSource::SaturnV844,
                note: None,
            },
        14 => Material {
                name: "RO3010",
                er_centi: 1020,
                tg_celsius: None,
                roughness_centi: 100,
                source: MaterialSource::SaturnV844,
                note: None,
            },
        15 => Material {
                name: "RO4003",
                er_centi: 338,
                tg_celsius: Some(280),
                roughness_centi: 100,
                source: MaterialSource::SaturnV844,
                note: Some("Saturn value 3.38 matches Rogers RO4003C *process* Dk (10 GHz); the RO4003C *design* Dk is 3.55"),
            },
        16 => Material {
                name: "RO4350",
                er_centi: 366,
                tg_celsius: Some(280),
                roughness_centi: 100,
                source: MaterialSource::SaturnV844,
                note: Some("Saturn value 3.66 matches Rogers RO4350B *design* Dk; the RO4350B *process* Dk (10 GHz) is 3.48"),
            },
        17 => Material {
                name: "RT5500",
                er_centi: 250,
                tg_celsius: Some(260),
                roughness_centi: 100,
                source: MaterialSource::SaturnV844,
                note: None,
            },
        18 => Material {
                name: "RT5870",
                er_centi: 235,
                tg_celsius: Some(260),
                roughness_centi: 100,
                source: MaterialSource::SaturnV844,
                note: None,
            },
        19 => Material {
                name: "RT5880",
                er_centi: 220,
                tg_celsius: Some(260),
                roughness_centi: 100,
                source: MaterialSource::SaturnV844,
                note: None,
            },
        20 => Material {
                name: "RT6002",
                er_centi: 294,
                tg_celsius: None,
                roughness_centi: 100,
                source: MaterialSource::SaturnV844,
                note: None,
            },
        21 => Material {
                name: "RT6006",
                er_centi: 615,
                tg_celsius: None,
                roughness_centi: 100,
                source: MaterialSource::SaturnV844,
                note: None,
            },
        22 => Material {
                name: "RT6010",
                er_centi: 1020,
                tg_celsius: None,
                roughness_centi: 100,
                source: MaterialSource::SaturnV844,
                note: None,
            },
        23 => Material {
                name: "Teflon PTFE",
                er_centi: 210,
                tg_celsius: Some(240),
                roughness_centi: 100,
                source: MaterialSource::SaturnV844,
                note: None,
            },
        24 => Material {
                name: "Arlon 25N",
                er_centi: 338,
                tg_celsius: Some(260),
                roughness_centi: 100,
                source: MaterialSource::SaturnV844,
                note: None,
            },
        25 => Material {
                name: "Arlon 33N",
                er_centi: 425,
                tg_celsius: Some(250),
                roughness_centi: 100,
                source: MaterialSource::SaturnV844,
                note: None,
            },
        26 => Material {
                name: "Arlon 85N",
                er_centi: 420,
                tg_celsius: Some(250),
                roughness_centi: 100,
                source: MaterialSource::SaturnV844,
                note: None,
            },
        27 => Material {
                name: "PCL-FR-226",
                er_centi: 450,
                tg_celsius: Some(140),
                roughness_centi: 98,
                source: MaterialSource::SaturnV844,
                note: None,
            },
        28 => Material {
                name: "PCL-FR-240",
                er_centi: 450,
                tg_celsius: Some(140),
                roughness_centi: 98,
                source: MaterialSource::SaturnV844,
                note: None,
            },
        29 => Material {
                name: "PCL-FR-370",
                er_centi: 450,
                tg_celsius: Some(175),
                roughness_centi: 98,
                source: MaterialSource::SaturnV844,
                note: None,
            },
        30 => Material {
                name: "PCL-FR-370HR",
                er_centi: 460,
                tg_celsius: Some(180),
                roughness_centi: 98,
                source: MaterialSource::SaturnV844,
                note: None,
            },
        31 => Material {
                name: "N4000-7 EF",
                er_centi: 410,
                tg_celsius: Some(165),
                roughness_centi: 98,
                source: MaterialSource::SaturnV844,
                note: None,
            },
        32 => Material {
                name: "N4000-13",
                er_centi: 370,
                tg_celsius: Some(210),
                roughness_centi: 98,
                source: MaterialSource::SaturnV844,
                note: None,
            },
        33 => Material {
                name: "N4000-13SI",
                er_centi: 340,
                tg_celsius: Some(210),
                roughness_centi: 98,
                source: MaterialSource::SaturnV844,
                note: None,
            },
        34 => Material {
                name: "N4000-13 EP",
                er_centi: 370,
                tg_celsius: Some(210),
                roughness_centi: 98,
                source: MaterialSource::SaturnV844,
                note: None,
            },
        35 => Material {
                name: "N4000-13 EPSI",
                er_centi: 340,
                tg_celsius: Some(210),
                roughness_centi: 98,
                source: MaterialSource::SaturnV844,
                note: None,
            },
        36 => Material {
                name: "N4000-29",
                er_centi: 450,
                tg_celsius: Some(185),
                roughness_centi: 98,
                source: MaterialSource::SaturnV844,
                note: None,
            },
        37 => Material {
                name: "N7000-1",
                er_centi: 390,
                tg_celsius: Some(260),
                roughness_centi: 100,
                source: MaterialSource::SaturnV844,
                note: None,
            },
        38 => Material {
                name: "Ventec VT-47",
                er_centi: 460,
                tg_celsius: Some(180),
                roughness_centi: 98,
                source: MaterialSource::SaturnV844,
                note: None,
            },
        39 => Material {
                name: "Ventec VT-901",
                er_centi: 415,
                tg_celsius: Some(250),
                roughness_centi: 100,
                source: MaterialSource::SaturnV844,
                note: None,
            },
        40 => Material {
                name: "Ventec VT-90H",
                er_centi: 415,
                tg_celsius: Some(250),
                roughness_centi: 100,
                source: MaterialSource::SaturnV844,
                note: None,
            },
        41 => Material {
                name: "Megtron6",
                er_centi: 340,
                tg_celsius: Some(185),
                roughness_centi: 100,
                source: MaterialSource::SaturnV844,
                note: None,
            },
        42 => Material {
                name: "Kappa 438",
                er_centi: 438,
                tg_celsius: Some(280),
                roughness_centi: 100,
                source: MaterialSource::SaturnV844,
                note: None,
            },
        43 => Material {
                name: "Kapton",
                er_centi: 340,
                tg_celsius: Some(400),
                roughness_centi: 100,
                source: MaterialSource::SaturnV844,
                note: None,
            },
        _ => Material {
                name: "Air",
                er_centi: 100,
                tg_celsius: None,
                roughness_centi: 100,
                source: MaterialSource::SaturnV844,
                note: None,
            },
    }
}

/// All built-in presets, in table order.
pub fn materials() -> (presets: Vec<Material>)
    ensures
        presets@ == material_table(),
{
    let mut presets: Vec<Material> = Vec::new();
    let mut i: usize = 0;
    while i < MATERIAL_COUNT
        invariant
            i <= MATERIAL_COUNT,
            presets@ == material_table().subrange(0, i as int),
        decreases MATERIAL_COUNT - i,
    {
        presets.push(preset(i));
        i = i + 1;
        assert(presets@ =~= material_table().subrange(0, i as int));
    }
    assert(presets@ =~= material_table());
    presets
}

/// Look up a material by name (case-insensitive): the first preset whose
/// name equals `name` up to ASCII case, or `None` when no preset has it.
pub fn lookup(name: &str) -> (found: Option<Material>)
    ensures
        found is None <==> forall|k: int|
            0 <= k < MATERIAL_COUNT ==> !eq_ignore_ascii_case(#[trigger] material_at(k).name@, name@),
        found matches Some(m) ==> exists|i: int| first_named(name@, i) && material_at(i) == m,
{
    let mut i: usize = 0;
    while i < MATERIAL_COUNT
        invariant
            i <= MATERIAL_COUNT,
            forall|k: int| 0 <= k < i ==> !eq_ignore_ascii_case(#[trigger] material_at(k).name@, name@),
        decreases MATERIAL_COUNT - i,
    {
        let m = preset(i);
        if str_eq_ignore_ascii_case(m.name, name) {
            assert(first_named(name@, i as int));
            return Some(m);
        }
        i = i + 1;
    }
    None
}

/// Every preset is physical and sourced: its dielectric constant is at
/// least that of vacuum, its roughness factor lies in (0, 1], and its
/// numbers come from the Saturn v8.44 table.
pub proof fn lemma_presets_are_physical(i: int)
    requires
        0 <= i < MATERIAL_COUNT,
    ensures
        material_at(i).er_centi >= 100,
        0 < material_at(i).roughness_centi <= 100,
        material_at(i).source == MaterialSource::SaturnV844,
{
}

/// The Saturn PCB Toolkit v8.44 material list, by name: dielectric
/// constant in hundredths, glass transition temperature in °C where
/// listed, and roughness factor in hundredths (listed here from the
/// highest dielectric constant down).
pub open spec fn saturn_listing(name: Seq<char>) -> Option<(nat, Option<nat>, nat)> {
    if name == "RO3010"@ {
        Some((1020, None, 100))
    } else if name == "RT6010"@ {
        Some((1020, None, 100))
    } else if name == "RO3006"@ {
        Some((615, None, 100))
    } else if name == "RT6006"@ {
        Some((615, None, 100))
    } else if name == "FR406"@ {
        Some((460, Some(170), 98))
    } else if name == "Ventec VT-47"@ {
        Some((460, Some(180), 98))
    } else if name == "FR-4 STD"@ {
        Some((460, Some(130), 98))
    } else if name == "PCL-FR-370HR"@ {
        Some((460, Some(180), 98))
    } else if name == "PCL-FR-240"@ {
        Some((450, Some(140), 98))
    } else if name == "PCL-FR-370"@ {
        Some((450, Some(175), 98))
    } else if name == "PCL-FR-226"@ {
        Some((450, Some(140), 98))
    } else if name == "N4000-29"@ {
        Some((450, Some(185), 98))
    } else if name == "Kappa 438"@ {
        Some((438, Some(280), 100))
    } else if name == "FR-5"@ {
        Some((430, Some(170), 98))
    } else if name == "Arlon 33N"@ {
        Some((425, Some(250), 100))
    } else if name == "Getek RG200D"@ {
        Some((420, Some(175), 98))
    } else if name == "Arlon 85N"@ {
        Some((420, Some(250), 100))
    } else if name == "Ventec VT-901"@ {
        Some((415, Some(250), 100))
    } else if name == "Ventec VT-90H"@ {
        Some((415, Some(250), 100))
    } else if name == "N4000-7 EF"@ {
        Some((410, Some(165), 98))
    } else if name == "N7000-1"@ {
        Some((390, Some(260), 100))
    } else if name == "Getek ML200D"@ {
        Some((390, Some(175), 98))
    } else if name == "Isola P26N"@ {
        Some((390, Some(250), 100))
    } else if name == "FR408"@ {
        Some((380, Some(180), 98))
    } else if name == "Getek ML200C"@ {
        Some((380, Some(175), 98))
    } else if name == "Getek ML200M"@ {
        Some((380, Some(175), 98))
    } else if name == "Isola P95"@ {
        Some((378, Some(260), 100))
    } else if name == "Isola P96"@ {
        Some((378, Some(260), 100))
    } else if name == "N4000-13"@ {
        Some((370, Some(210), 98))
    } else if name == "N4000-13 EP"@ {
        Some((370, Some(210), 98))
    } else if name == "RO4350"@ {
        Some((366, Some(280), 100))
    } else if name == "Megtron6"@ {
        Some((340, Some(185), 100))
    } else if name == "N4000-13SI"@ {
        Some((340, Some(210), 98))
    } else if name == "N4000-13 EPSI"@ {
        Some((340, Some(210), 98))
    } else if name == "Kapton"@ {
        Some((340, Some(400), 100))
    } else if name == "RO4003"@ {
        Some((338, Some(280), 100))
    } else if name == "Arlon 25N"@ {
        Some((338, Some(260), 100))
    } else if name == "RO3003"@ {
        Some((300, None, 100))
    } else if name == "RO2800"@ {
        Some((294, None, 100))
    } else if name == "RT6002"@ {
        Some((294, None, 100))
    } else if name == "RT5500"@ {
        Some((250, Some(260), 100))
    } else if name == "RT5870"@ {
        Some((235, Some(260), 100))
    } else if name == "RT5880"@ {
        Some((220, Some(260), 100))
    } else if name == "Teflon PTFE"@ {
        Some((210, Some(240), 100))
    } else if name == "Air"@ {
        Some((100, None, 100))
    } else {
        None
    }
}

/// Every preset carries the dielectric constant, glass transition
/// temperature and roughness factor that the Saturn v8.44 list gives
/// for its name.
pub proof fn lemma_presets_match_saturn_listing(i: int)
    requires
        0 <= i < MATERIAL_COUNT,
    ensures
        saturn_listing(material_at(i).name@) == Some((
            material_at(i).er_centi as nat,
            match material_at(i).tg_celsius {
                Some(t) => Some(t as nat),
                None => None,
            },
            material_at(i).roughness_centi as nat,
        )),
{
    if i == 0 {
        assert(saturn_listing("FR-4 STD"@) == Some((460nat, Some(130nat), 98nat))) by {
            reveal_strlit("FR-4 STD");
            reveal_strlit("RO3010");
            assert("RO3010"@.len() != "FR-4 STD"@.len());
            reveal_strlit("RT6010");
            assert("RT6010"@.len() != "FR-4 STD"@.len());
            reveal_strlit("RO3006");
            assert("RO3006"@.len() != "FR-4 STD"@.len());
            reveal_strlit("RT6006");
            assert("RT6006"@.len() != "FR-4 STD"@.len());
            reveal_strlit("FR406");
            assert("FR406"@.len() != "FR-4 STD"@.len());
            reveal_strlit("Ventec VT-47");
            assert("Ventec VT-47"@.len() != "FR-4 STD"@.len());
        }
    } else if i == 1 {
        assert(saturn_listing("FR-5"@) == Some((430nat, Some(170nat), 98nat))) by {
            reveal_strlit("FR-5");
            reveal_strlit("RO3010");
            assert("RO3010"@.len() != "FR-5"@.len());
            reveal_strlit("RT6010");
            assert("RT6010"@.len() != "FR-5"@.len());
            reveal_strlit("RO3006");
            assert("RO3006"@.len() != "FR-5"@.len());
            reveal_strlit("RT6006");
            assert("RT6006"@.len() != "FR-5"@.len());
            reveal_strlit("FR406");
            assert("FR406"@.len() != "FR-5"@.len());
            reveal_strlit("Ventec VT-47");
            assert("Ventec VT-47"@.len() != "FR-5"@.len());
            reveal_strlit("FR-4 STD");
            assert("FR-4 STD"@.len() != "FR-5"@.len());
            reveal_strlit("PCL-FR-370HR");
            assert("PCL-FR-370HR"@.len() != "FR-5"@.len());
            reveal_strlit("PCL-FR-240");
            assert("PCL-FR-240"@.len() != "FR-5"@.len());
            reveal_strlit("PCL-FR-370");
            assert("PCL-FR-370"@.len() != "FR-5"@.len());
            reveal_strlit("PCL-FR-226");
            assert("PCL-FR-226"@.len() != "FR-5"@.len());
            reveal_strlit("N4000-29");
            assert("N4000-29"@.len() != "FR-5"@.len());
            reveal_strlit("Kappa 438");
            assert("Kappa 438"@.len() != "FR-5"@.len());
        }
    } else if i == 2 {
        assert(saturn_listing("FR406"@) == Some((460nat, Some(170nat), 98nat))) by {
            reveal_strlit("FR406");
            reveal_strlit("RO3010");
            assert("RO3010"@.len() != "FR406"@.len());
            reveal_strlit("RT6010");
            assert("RT6010"@.len() != "FR406"@.len());
            reveal_strlit("RO3006");
            assert("RO3006"@.len() != "FR406"@.len());
            reveal_strlit("RT6006");
            assert("RT6006"@.len() != "FR406"@.len());
        }
    } else if i == 3 {
        assert(saturn_listing("FR408"@) == Some((380nat, Some(180nat), 98nat))) by {
            reveal_strlit("FR408");
            reveal_strlit("RO3010");
            assert("RO3010"@.len() != "FR408"@.len());
            reveal_strlit("RT6010");
            assert("RT6010"@.len() != "FR408"@.len());
            reveal_strlit("RO3006");
            assert("RO3006"@.len() != "FR408"@.len());
            reveal_strlit("RT6006");
            assert("RT6006"@.len() != "FR408"@.len());
            reveal_strlit("FR406");
            assert("FR406"@[4] != "FR408"@[4]);
            reveal_strlit("Ventec VT-47");
            assert("Ventec VT-47"@.len() != "FR408"@.len());
            reveal_strlit("FR-4 STD");
            assert("FR-4 STD"@.len() != "FR408"@.len());
            reveal_strlit("PCL-FR-370HR");
            assert("PCL-FR-370HR"@.len() != "FR408"@.len());
            reveal_strlit("PCL-FR-240");
            assert("PCL-FR-240"@.len() != "FR408"@.len());
            reveal_strlit("PCL-FR-370");
            assert("PCL-FR-370"@.len() != "FR408"@.len());
            reveal_strlit("PCL-FR-226");
            assert("PCL-FR-226"@.len() != "FR408"@.len());
            reveal_strlit("N4000-29");
            assert("N4000-29"@.len() != "FR408"@.len());
            reveal_strlit("Kappa 438");
            assert("Kappa 438"@.len() != "FR408"@.len());
            reveal_strlit("FR-5");
            assert("FR-5"@.len() != "FR408"@.len());
            reveal_strlit("Arlon 33N");
            assert("Arlon 33N"@.len() != "FR408"@.len());
            reveal_strlit("Getek RG200D");
            assert("Getek RG200D"@.len() != "FR408"@.len());
            reveal_strlit("Arlon 85N");
            assert("Arlon 85N"@.len() != "FR408"@.len());
            reveal_strlit("Ventec VT-901");
            assert("Ventec VT-901"@.len() != "FR408"@.len());
            reveal_strlit("Ventec VT-90H");
            assert("Ventec VT-90H"@.len() != "FR408"@.len());
            reveal_strlit("N4000-7 EF");
            assert("N4000-7 EF"@.len() != "FR408"@.len());
            reveal_strlit("N7000-1");
            assert("N7000-1"@.len() != "FR408"@.len());
            reveal_strlit("Getek ML200D");
            assert("Getek ML200D"@.len() != "FR408"@.len());
            reveal_strlit("Isola P26N");
            assert("Isola P26N"@.len() != "FR408"@.len());
        }
    } else if i == 4 {
        assert(saturn_listing("Getek ML200C"@) == Some((380nat, Some(175nat), 98nat))) by {
            reveal_strlit("Getek ML200C");
            reveal_strlit("RO3010");
            assert("RO3010"@.len() != "Getek ML200C"@.len());
            reveal_strlit("RT6010");
            assert("RT6010"@.len() != "Getek ML200C"@.len());
            reveal_strlit("RO3006");
            assert("RO3006"@.len() != "Getek ML200C"@.len());
            reveal_strlit("RT6006");
            assert("RT6006"@.len() != "Getek ML200C"@.len());
            reveal_strlit("FR406");
            assert("FR406"@.len() != "Getek ML200C"@.len());
            reveal_strlit("Ventec VT-47");
            assert("Ventec VT-47"@[0] != "Getek ML200C"@[0]);
            reveal_strlit("FR-4 STD");
            assert("FR-4 STD"@.len() != "Getek ML200C"@.len());
            reveal_strlit("PCL-FR-370HR");
            assert("PCL-FR-370HR"@[0] != "Getek ML200C"@[0]);
            reveal_strlit("PCL-FR-240");
            assert("PCL-FR-240"@.len() != "Getek ML200C"@.len());
            reveal_strlit("PCL-FR-370");
            assert("PCL-FR-370"@.len() != "Getek ML200C"@.len());
            reveal_strlit("PCL-FR-226");
            assert("PCL-FR-226"@.len() != "Getek ML200C"@.len());
            reveal_strlit("N4000-29");
            assert("N4000-29"@.len() != "Getek ML200C"@.len());
            reveal_strlit("Kappa 438");
            assert("Kappa 438"@.len() != "Getek ML200C"@.len());
            reveal_strlit("FR-5");
            assert("FR-5"@.len() != "Getek ML200C"@.len());
            reveal_strlit("Arlon 33N");
            assert("Arlon 33N"@.len() != "Getek ML200C"@.len());
            reveal_strlit("Getek RG200D");
            assert("Getek RG200D"@[6] != "Getek ML200C"@[6]);
            reveal_strlit("Arlon 85N");
            assert("Arlon 85N"@.len() != "Getek ML200C"@.len());
            reveal_strlit("Ventec VT-901");
            assert("Ventec VT-901"@.len() != "Getek ML200C"@.len());
            reveal_strlit("Ventec VT-90H");
            assert("Ventec VT-90H"@.len() != "Getek ML200C"@.len());
            reveal_strlit("N4000-7 EF");
            assert("N4000-7 EF"@.len() != "Getek ML200C"@.len());
            reveal_strlit("N7000-1");
            assert("N7000-1"@.len() != "Getek ML200C"@.len());
            reveal_strlit("Getek ML200D");
            assert("Getek ML200D"@[11] != "Getek ML200C"@[11]);
            reveal_strlit("Isola P26N");
            assert("Isola P26N"@.len() != "Getek ML200C"@.len());
            reveal_strlit("FR408");
            assert("FR408"@.len() != "Getek ML200C"@.len());
        }
    } else if i == 5 {
        assert(saturn_listing("Getek ML200D"@) == Some((390nat, Some(175nat), 98nat))) by {
            reveal_strlit("Getek ML200D");
            reveal_strlit("RO3010");
            assert("RO3010"@.len() != "Getek ML200D"@.len());
            reveal_strlit("RT6010");
            assert("RT6010"@.len() != "Getek ML200D"@.len());
            reveal_strlit("RO3006");
            assert("RO3006"@.len() != "Getek ML200D"@.len());
            reveal_strlit("RT6006");
            assert("RT6006"@.len() != "Getek ML200D"@.len());
            reveal_strlit("FR406");
            assert("FR406"@.len() != "Getek ML200D"@.len());
            reveal_strlit("Ventec VT-47");
            assert("Ventec VT-47"@[0] != "Getek ML200D"@[0]);
            reveal_strlit("FR-4 STD");
            assert("FR-4 STD"@.len() != "Getek ML200D"@.len());
            reveal_strlit("PCL-FR-370HR");
            assert("PCL-FR-370HR"@[0] != "Getek ML200D"@[0]);
            reveal_strlit("PCL-FR-240");
            assert("PCL-FR-240"@.len() != "Getek ML200D"@.len());
            reveal_strlit("PCL-FR-370");
            assert("PCL-FR-370"@.len() != "Getek ML200D"@.len());
            reveal_strlit("PCL-FR-226");
            assert("PCL-FR-226"@.len() != "Getek ML200D"@.len());
            reveal_strlit("N4000-29");
            assert("N4000-29"@.len() != "Getek ML200D"@.len());
            reveal_strlit("Kappa 438");
            assert("Kappa 438"@.len() != "Getek ML200D"@.len());
            reveal_strlit("FR-5");
            assert("FR-5"@.len() != "Getek ML200D"@.len());
            reveal_strlit("Arlon 33N");
            assert("Arlon 33N"@.len() != "Getek ML200D"@.len());
            reveal_strlit("Getek RG200D");
            assert("Getek RG200D"@[6] != "Getek ML200D"@[6]);
            reveal_strlit("Arlon 85N");
            assert("Arlon 85N"@.len() != "Getek ML200D"@.len());
            reveal_strlit("Ventec VT-901");
            assert("Ventec VT-901"@.len() != "Getek ML200D"@.len());
            reveal_strlit("Ventec VT-90H");
            assert("Ventec VT-90H"@.len() != "Getek ML200D"@.len());
            reveal_strlit("N4000-7 EF");
            assert("N4000-7 EF"@.len() != "Getek ML200D"@.len());
            reveal_strlit("N7000-1");
            assert("N7000-1"@.len() != "Getek ML200D"@.len());
        }
    } else if i == 6 {
        assert(saturn_listing("Getek ML200M"@) == Some((380nat, Some(175nat), 98nat))) by {
            reveal_strlit("Getek ML200M");
            reveal_strlit("RO3010");
            assert("RO3010"@.len() != "Getek ML200M"@.len());
            reveal_strlit("RT6010");
            assert("RT6010"@.len() != "Getek ML200M"@.len());
            reveal_strlit("RO3006");
            assert("RO3006"@.len() != "Getek ML200M"@.len());
            reveal_strlit("RT6006");
            assert("RT6006"@.len() != "Getek ML200M"@.len());
            reveal_strlit("FR406");
            assert("FR406"@.len() != "Getek ML200M"@.len());
            reveal_strlit("Ventec VT-47");
            assert("Ventec VT-47"@[0] != "Getek ML200M"@[0]);
            reveal_strlit("FR-4 STD");
            assert("FR-4 STD"@.len() != "Getek ML200M"@.len());
            reveal_strlit("PCL-FR-370HR");
            assert("PCL-FR-370HR"@[0] != "Getek ML200M"@[0]);
            reveal_strlit("PCL-FR-240");
            assert("PCL-FR-240"@.len() != "Getek ML200M"@.len());
            reveal_strlit("PCL-FR-370");
            assert("PCL-FR-370"@.len() != "Getek ML200M"@.len());
            reveal_strlit("PCL-FR-226");
            assert("PCL-FR-226"@.len() != "Getek ML200M"@.len());
            reveal_strlit("N4000-29");
            assert("N4000-29"@.len() != "Getek ML200M"@.len());
            reveal_strlit("Kappa 438");
            assert("Kappa 438"@.len() != "Getek ML200M"@.len());
            reveal_strlit("FR-5");
            assert("FR-5"@.len() != "Getek ML200M"@.len());
            reveal_strlit("Arlon 33N");
            assert("Arlon 33N"@.len() != "Getek ML200M"@.len());
            reveal_strlit("Getek RG200D");
            assert("Getek RG200D"@[6] != "Getek ML200M"@[6]);
            reveal_strlit("Arlon 85N");
            assert("Arlon 85N"@.len() != "Getek ML200M"@.len());
            reveal_strlit("Ventec VT-901");
            assert("Ventec VT-901"@.len() != "Getek ML200M"@.len());
            reveal_strlit("Ventec VT-90H");
            assert("Ventec VT-90H"@.len() != "Getek ML200M"@.len());
            reveal_strlit("N4000-7 EF");
            assert("N4000-7 EF"@.len() != "Getek ML200M"@.len());
            reveal_strlit("N7000-1");
            assert("N7000-1"@.len() != "Getek ML200M"@.len());
            reveal_strlit("Getek ML200D");
            assert("Getek ML200D"@[11] != "Getek ML200M"@[11]);
            reveal_strlit("Isola P26N");
            assert("Isola P26N"@.len() != "Getek ML200M"@.len());
            reveal_strlit("FR408");
            assert("FR408"@.len() != "Getek ML200M"@.len());
            reveal_strlit("Getek ML200C");
            assert("Getek ML200C"@[11] != "Getek ML200M"@[11]);
        }
    } else if i == 7 {
        assert(saturn_listing("Getek RG200D"@) == Some((420nat, Some(175nat), 98nat))) by {
            reveal_strlit("Getek RG200D");
            reveal_strlit("RO3010");
            assert("RO3010"@.len() != "Getek RG200D"@.len());
            reveal_strlit("RT6010");
            assert("RT6010"@.len() != "Getek RG200D"@.len());
            reveal_strlit("RO3006");
            assert("RO3006"@.len() != "Getek RG200D"@.len());
            reveal_strlit("RT6006");
            assert("RT6006"@.len() != "Getek RG200D"@.len());
            reveal_strlit("FR406");
            assert("FR406"@.len() != "Getek RG200D"@.len());
            reveal_strlit("Ventec VT-47");
            assert("Ventec VT-47"@[0] != "Getek RG200D"@[0]);
            reveal_strlit("FR-4 STD");
            assert("FR-4 STD"@.len() != "Getek RG200D"@.len());
            reveal_strlit("PCL-FR-370HR");
            assert("PCL-FR-370HR"@[0] != "Getek RG200D"@[0]);
            reveal_strlit("PCL-FR-240");
            assert("PCL-FR-240"@.len() != "Getek RG200D"@.len());
            reveal_strlit("PCL-FR-370");
            assert("PCL-FR-370"@.len() != "Getek RG200D"@.len());
            reveal_strlit("PCL-FR-226");
            assert("PCL-FR-226"@.len() != "Getek RG200D"@.len());
            reveal_strlit("N4000-29");
            assert("N4000-29"@.len() != "Getek RG200D"@.len());
            reveal_strlit("Kappa 438");
            assert("Kappa 438"@.len() != "Getek RG200D"@.len());
            reveal_strlit("FR-5");
            assert("FR-5"@.len() != "Getek RG200D"@.len());
            reveal_strlit("Arlon 33N");
            assert("Arlon 33N"@.len() != "Getek RG200D"@.len());
        }
    } else if i == 8 {
        assert(saturn_listing("Isola P95"@) == Some((378nat, Some(260nat), 100nat))) by {
            reveal_strlit("Isola P95");
            reveal_strlit("RO3010");
            assert("RO3010"@.len() != "Isola P95"@.len());
            reveal_strlit("RT6010");
            assert("RT6010"@.len() != "Isola P95"@.len());
            reveal_strlit("RO3006");
            assert("RO3006"@.len() != "Isola P95"@.len());
            reveal_strlit("RT6006");
            assert("RT6006"@.len() != "Isola P95"@.len());
            reveal_strlit("FR406");
            assert("FR406"@.len() != "Isola P95"@.len());
            reveal_strlit("Ventec VT-47");
            assert("Ventec VT-47"@.len() != "Isola P95"@.len());
            reveal_strlit("FR-4 STD");
            assert("FR-4 STD"@.len() != "Isola P95"@.len());
            reveal_strlit("PCL-FR-370HR");
            assert("PCL-FR-370HR"@.len() != "Isola P95"@.len());
            reveal_strlit("PCL-FR-240");
            assert("PCL-FR-240"@.len() != "Isola P95"@.len());
            reveal_strlit("PCL-FR-370");
            assert("PCL-FR-370"@.len() != "Isola P95"@.len());
            reveal_strlit("PCL-FR-226");
            assert("PCL-FR-226"@.len() != "Isola P95"@.len());
            reveal_strlit("N4000-29");
            assert("N4000-29"@.len() != "Isola P95"@.len());
            reveal_strlit("Kappa 438");
            assert("Kappa 438"@[0] != "Isola P95"@[0]);
            reveal_strlit("FR-5");
            assert("FR-5"@.len() != "Isola P95"@.len());
            reveal_strlit("Arlon 33N");
            assert("Arlon 33N"@[0] != "Isola P95"@[0]);
            reveal_strlit("Getek RG200D");
            assert("Getek RG200D"@.len() != "Isola P95"@.len());
            reveal_strlit("Arlon 85N");
            assert("Arlon 85N"@[0] != "Isola P95"@[0]);
            reveal_strlit("Ventec VT-901");
            assert("Ventec VT-901"@.len() != "Isola P95"@.len());
            reveal_strlit("Ventec VT-90H");
            assert("Ventec VT-90H"@.len() != "Isola P95"@.len());
            reveal_strlit("N4000-7 EF");
            assert("N4000-7 EF"@.len() != "Isola P95"@.len());
            reveal_strlit("N7000-1");
            assert("N7000-1"@.len() != "Isola P95"@.len());
            reveal_strlit("Getek ML200D");
            assert("Getek ML200D"@.len() != "Isola P95"@.len());
            reveal_strlit("Isola P26N");
            assert("Isola P26N"@.len() != "Isola P95"@.len());
            reveal_strlit("FR408");
            assert("FR408"@.len() != "Isola P95"@.len());
            reveal_strlit("Getek ML200C");
            assert("Getek ML200C"@.len() != "Isola P95"@.len());
            reveal_strlit("Getek ML200M");
            assert("Getek ML200M"@.len() != "Isola P95"@.len());
        }
    } else if i == 9 {
        assert(saturn_listing("Isola P96"@) == Some((378nat, Some(260nat), 100nat))) by {
            reveal_strlit("Isola P96");
            reveal_strlit("RO3010");
            assert("RO3010"@.len() != "Isola P96"@.len());
            reveal_strlit("RT6010");
            assert("RT6010"@.len() != "Isola P96"@.len());
            reveal_strlit("RO3006");
            assert("RO3006"@.len() != "Isola P96"@.len());
            reveal_strlit("RT6006");
            assert("RT6006"@.len() != "Isola P96"@.len());
            reveal_strlit("FR406");
            assert("FR406"@.len() != "Isola P96"@.len());
            reveal_strlit("Ventec VT-47");
            assert("Ventec VT-47"@.len() != "Isola P96"@.len());
            reveal_strlit("FR-4 STD");
            assert("FR-4 STD"@.len() != "Isola P96"@.len());
            reveal_strlit("PCL-FR-370HR");
            assert("PCL-FR-370HR"@.len() != "Isola P96"@.len());
            reveal_strlit("PCL-FR-240");
            assert("PCL-FR-240"@.len() != "Isola P96"@.len());
            reveal_strlit("PCL-FR-370");
            assert("PCL-FR-370"@.len() != "Isola P96"@.len());
            reveal_strlit("PCL-FR-226");
            assert("PCL-FR-226"@.len() != "Isola P96"@.len());
            reveal_strlit("N4000-29");
            assert("N4000-29"@.len() != "Isola P96"@.len());
            reveal_strlit("Kappa 438");
            assert("Kappa 438"@[0] != "Isola P96"@[0]);
            reveal_strlit("FR-5");
            assert("FR-5"@.len() != "Isola P96"@.len());
            reveal_strlit("Arlon 33N");
            assert("Arlon 33N"@[0] != "Isola P96"@[0]);
            reveal_strlit("Getek RG200D");
            assert("Getek RG200D"@.len() != "Isola P96"@.len());
            reveal_strlit("Arlon 85N");
            assert("Arlon 85N"@[0] != "Isola P96"@[0]);
            reveal_strlit("Ventec VT-901");
            assert("Ventec VT-901"@.len() != "Isola P96"@.len());
            reveal_strlit("Ventec VT-90H");
            assert("Ventec VT-90H"@.len() != "Isola P96"@.len());
            reveal_strlit("N4000-7 EF");
            assert("N4000-7 EF"@.len() != "Isola P96"@.len());
            reveal_strlit("N7000-1");
            assert("N7000-1"@.len() != "Isola P96"@.len());
            reveal_strlit("Getek ML200D");
            assert("Getek ML200D"@.len() != "Isola P96"@.len());
            reveal_strlit("Isola P26N");
            assert("Isola P26N"@.len() != "Isola P96"@.len());
            reveal_strlit("FR408");
            assert("FR408"@.len() != "Isola P96"@.len());
            reveal_strlit("Getek ML200C");
            assert("Getek ML200C"@.len() != "Isola P96"@.len());
            reveal_strlit("Getek ML200M");
            assert("Getek ML200M"@.len() != "Isola P96"@.len());
            reveal_strlit("Isola P95");
            assert("Isola P95"@[8] != "Isola P96"@[8]);
        }
    } else if i == 10 {
        assert(saturn_listing("Isola P26N"@) == Some((390nat, Some(250nat), 100nat))) by {
            reveal_strlit("Isola P26N");
            reveal_strlit("RO3010");
            assert("RO3010"@.len() != "Isola P26N"@.len());
            reveal_strlit("RT6010");
            assert("RT6010"@.len() != "Isola P26N"@.len());
            reveal_strlit("RO3006");
            assert("RO3006"@.len() != "Isola P26N"@.len());
            reveal_strlit("RT6006");
            assert("RT6006"@.len() != "Isola P26N"@.len());
            reveal_strlit("FR406");
            assert("FR406"@.len() != "Isola P26N"@.len());
            reveal_strlit("Ventec VT-47");
            assert("Ventec VT-47"@.len() != "Isola P26N"@.len());
            reveal_strlit("FR-4 STD");
            assert("FR-4 STD"@.len() != "Isola P26N"@.len());
            reveal_strlit("PCL-FR-370HR");
            assert("PCL-FR-370HR"@.len() != "Isola P26N"@.len());
            reveal_strlit("PCL-FR-240");
            assert("PCL-FR-240"@[0] != "Isola P26N"@[0]);
            reveal_strlit("PCL-FR-370");
            assert("PCL-FR-370"@[0] != "Isola P26N"@[0]);
            reveal_strlit("PCL-FR-226");
            assert("PCL-FR-226"@[0] != "Isola P26N"@[0]);
            reveal_strlit("N4000-29");
            assert("N4000-29"@.len() != "Isola P26N"@.len());
            reveal_strlit("Kappa 438");
            assert("Kappa 438"@.len() != "Isola P26N"@.len());
            reveal_strlit("FR-5");
            assert("FR-5"@.len() != "Isola P26N"@.len());
            reveal_strlit("Arlon 33N");
            assert("Arlon 33N"@.len() != "Isola P26N"@.len());
            reveal_strlit("Getek RG200D");
            assert("Getek RG200D"@.len() != "Isola P26N"@.len());
            reveal_strlit("Arlon 85N");
            assert("Arlon 85N"@.len() != "Isola P26N"@.len());
            reveal_strlit("Ventec VT-901");
            assert("Ventec VT-901"@.len() != "Isola P26N"@.len());
            reveal_strlit("Ventec VT-90H");
            assert("Ventec VT-90H"@.len() != "Isola P26N"@.len());
            reveal_strlit("N4000-7 EF");
            assert("N4000-7 EF"@[0] != "Isola P26N"@[0]);
            reveal_strlit("N7000-1");
            assert("N7000-1"@.len() != "Isola P26N"@.len());
            reveal_strlit("Getek ML200D");
            assert("Getek ML200D"@.len() != "Isola P26N"@.len());
        }
    } else if i == 11 {
        assert(saturn_listing("RO2800"@) == Some((294nat, None::<nat>, 100nat))) by {
            reveal_strlit("RO2800");
            reveal_strlit("RO3010");
            assert("RO3010"@[2] != "RO2800"@[2]);
            reveal_strlit("RT6010");
            assert("RT6010"@[1] != "RO2800"@[1]);
            reveal_strlit("RO3006");
            assert("RO3006"@[2] != "RO2800"@[2]);
            reveal_strlit("RT6006");
            assert("RT6006"@[1] != "RO2800"@[1]);
            reveal_strlit("FR406");
            assert("FR406"@.len() != "RO2800"@.len());
            reveal_strlit("Ventec VT-47");
            assert("Ventec VT-47"@.len() != "RO2800"@.len());
            reveal_strlit("FR-4 STD");
            assert("FR-4 STD"@.len() != "RO2800"@.len());
            reveal_strlit("PCL-FR-370HR");
            assert("PCL-FR-370HR"@.len() != "RO2800"@.len());
            reveal_strlit("PCL-FR-240");
            assert("PCL-FR-240"@.len() != "RO2800"@.len());
            reveal_strlit("PCL-FR-370");
            assert("PCL-FR-370"@.len() != "RO2800"@.len());
            reveal_strlit("PCL-FR-226");
            assert("PCL-FR-226"@.len() != "RO2800"@.len());
            reveal_strlit("N4000-29");
            assert("N4000-29"@.len() != "RO2800"@.len());
            reveal_strlit("Kappa 438");
            assert("Kappa 438"@.len() != "RO2800"@.len());
            reveal_strlit("FR-5");
            assert("FR-5"@.len() != "RO2800"@.len());
            reveal_strlit("Arlon 33N");
            assert("Arlon 33N"@.len() != "RO2800"@.len());
            reveal_strlit("Getek RG200D");
            assert("Getek RG200D"@.len() != "RO2800"@.len());
            reveal_strlit("Arlon 85N");
            assert("Arlon 85N"@.len() != "RO2800"@.len());
            reveal_strlit("Ventec VT-901");
            assert("Ventec VT-901"@.len() != "RO2800"@.len());
            reveal_strlit("Ventec VT-90H");
            assert("Ventec VT-90H"@.len() != "RO2800"@.len());
            reveal_strlit("N4000-7 EF");
            assert("N4000-7 EF"@.len() != "RO2800"@.len());
            reveal_strlit("N7000-1");
            assert("N7000-1"@.len() != "RO2800"@.len());
            reveal_strlit("Getek ML200D");
            assert("Getek ML200D"@.len() != "RO2800"@.len());
            reveal_strlit("Isola P26N");
            assert("Isola P26N"@.len() != "RO2800"@.len());
            reveal_strlit("FR408");
            assert("FR408"@.len() != "RO2800"@.len());
            reveal_strlit("Getek ML200C");
            assert("Getek ML200C"@.len() != "RO2800"@.len());
            reveal_strlit("Getek ML200M");
            assert("Getek ML200M"@.len() != "RO2800"@.len());
            reveal_strlit("Isola P95");
            assert("Isola P95"@.len() != "RO2800"@.len());
            reveal_strlit("Isola P96");
            assert("Isola P96"@.len() != "RO2800"@.len());
            reveal_strlit("N4000-13");
            assert("N4000-13"@.len() != "RO2800"@.len());
            reveal_strlit("N4000-13 EP");
            assert("N4000-13 EP"@.len() != "RO2800"@.len());
            reveal_strlit("RO4350");
            assert("RO4350"@[2] != "RO2800"@[2]);
            reveal_strlit("Megtron6");
            assert("Megtron6"@.len() != "RO2800"@.len());
            reveal_strlit("N4000-13SI");
            assert("N4000-13SI"@.len() != "RO2800"@.len());
            reveal_strlit("N4000-13 EPSI");
            assert("N4000-13 EPSI"@.len() != "RO2800"@.len());
            reveal_strlit("Kapton");
            assert("Kapton"@[0] != "RO2800"@[0]);
            reveal_strlit("RO4003");
            assert("RO4003"@[2] != "RO2800"@[2]);
            reveal_strlit("Arlon 25N");
            assert("Arlon 25N"@.len() != "RO2800"@.len());
            reveal_strlit("RO3003");
            assert("RO3003"@[2] != "RO2800"@[2]);
        }
    } else if i == 12 {
        assert(saturn_listing("RO3003"@) == Some((300nat, None::<nat>, 100nat))) by {
            reveal_strlit("RO3003");
            reveal_strlit("RO3010");
            assert("RO3010"@[4] != "RO3003"@[4]);
            reveal_strlit("RT6010");
            assert("RT6010"@[1] != "RO3003"@[1]);
            reveal_strlit("RO3006");
            assert("RO3006"@[5] != "RO3003"@[5]);
            reveal_strlit("RT6006");
            assert("RT6006"@[1] != "RO3003"@[1]);
            reveal_strlit("FR406");
            assert("FR406"@.len() != "RO3003"@.len());
            reveal_strlit("Ventec VT-47");
            assert("Ventec VT-47"@.len() != "RO3003"@.len());
            reveal_strlit("FR-4 STD");
            assert("FR-4 STD"@.len() != "RO3003"@.len());
            reveal_strlit("PCL-FR-370HR");
            assert("PCL-FR-370HR"@.len() != "RO3003"@.len());
            reveal_strlit("PCL-FR-240");
            assert("PCL-FR-240"@.len() != "RO3003"@.len());
            reveal_strlit("PCL-FR-370");
            assert("PCL-FR-370"@.len() != "RO3003"@.len());
            reveal_strlit("PCL-FR-226");
            assert("PCL-FR-226"@.len() != "RO3003"@.len());
            reveal_strlit("N4000-29");
            assert("N4000-29"@.len() != "RO3003"@.len());
            reveal_strlit("Kappa 438");
            assert("Kappa 438"@.len() != "RO3003"@.len());
            reveal_strlit("FR-5");
            assert("FR-5"@.len() != "RO3003"@.len());
            reveal_strlit("Arlon 33N");
            assert("Arlon 33N"@.len() != "RO3003"@.len());
            reveal_strlit("Getek RG200D");
            assert("Getek RG200D"@.len() != "RO3003"@.len());
            reveal_strlit("Arlon 85N");
            assert("Arlon 85N"@.len() != "RO3003"@.len());
            reveal_strlit("Ventec VT-901");
            assert("Ventec VT-901"@.len() != "RO3003"@.len());
            reveal_strlit("Ventec VT-90H");
            assert("Ventec VT-90H"@.len() != "RO3003"@.len());
            reveal_strlit("N4000-7 EF");
            assert("N4000-7 EF"@.len() != "RO3003"@.len());
            reveal_strlit("N7000-1");
            assert("N7000-1"@.len() != "RO3003"@.len());
            reveal_strlit("Getek ML200D");
            assert("Getek ML200D"@.len() != "RO3003"@.len());
            reveal_strlit("Isola P26N");
            assert("Isola P26N"@.len() != "RO3003"@.len());
            reveal_strlit("FR408");
            assert("FR408"@.len() != "RO3003"@.len());
            reveal_strlit("Getek ML200C");
            assert("Getek ML200C"@.len() != "RO3003"@.len());
            reveal_strlit("Getek ML200M");
            assert("Getek ML200M"@.len() != "RO3003"@.len());
            reveal_strlit("Isola P95");
            assert("Isola P95"@.len() != "RO3003"@.len());
            reveal_strlit("Isola P96");
            assert("Isola P96"@.len() != "RO3003"@.len());
            reveal_strlit("N4000-13");
            assert("N4000-13"@.len() != "RO3003"@.len());
            reveal_strlit("N4000-13 EP");
            assert("N4000-13 EP"@.len() != "RO3003"@.len());
            reveal_strlit("RO4350");
            assert("RO4350"@[2] != "RO3003"@[2]);
            reveal_strlit("Megtron6");
            assert("Megtron6"@.len() != "RO3003"@.len());
            reveal_strlit("N4000-13SI");
            assert("N4000-13SI"@.len() != "RO3003"@.len());
            reveal_strlit("N4000-13 EPSI");
            assert("N4000-13 EPSI"@.len() != "RO3003"@.len());
            reveal_strlit("Kapton");
            assert("Kapton"@[0] != "RO3003"@[0]);
            reveal_strlit("RO4003");
            assert("RO4003"@[2] != "RO3003"@[2]);
            reveal_strlit("Arlon 25N");
            assert("Arlon 25N"@.len() != "RO3003"@.len());
        }
    } else if i == 13 {
        assert(saturn_listing("RO3006"@) == Some((615nat, None::<nat>, 100nat))) by {
            reveal_strlit("RO3006");
            reveal_strlit("RO3010");
            assert("RO3010"@[4] != "RO3006"@[4]);
            reveal_strlit("RT6010");
            assert("RT6010"@[1] != "RO3006"@[1]);
        }
    } else if i == 14 {
        assert(saturn_listing("RO3010"@) == Some((1020nat, None::<nat>, 100nat))) by {
            reveal_strlit("RO3010");
        }
    } else if i == 15 {
        assert(saturn_listing("RO4003"@) == Some((338nat, Some(280nat), 100nat))) by {
            reveal_strlit("RO4003");
            reveal_strlit("RO3010");
            assert("RO3010"@[2] != "RO4003"@[2]);
            reveal_strlit("RT6010");
            assert("RT6010"@[1] != "RO4003"@[1]);
            reveal_strlit("RO3006");
            assert("RO3006"@[2] != "RO4003"@[2]);
            reveal_strlit("RT6006");
            assert("RT6006"@[1] != "RO4003"@[1]);
            reveal_strlit("FR406");
            assert("FR406"@.len() != "RO4003"@.len());
            reveal_strlit("Ventec VT-47");
            assert("Ventec VT-47"@.len() != "RO4003"@.len());
            reveal_strlit("FR-4 STD");
            assert("FR-4 STD"@.len() != "RO4003"@.len());
            reveal_strlit("PCL-FR-370HR");
            assert("PCL-FR-370HR"@.len() != "RO4003"@.len());
            reveal_strlit("PCL-FR-240");
            assert("PCL-FR-240"@.len() != "RO4003"@.len());
            reveal_strlit("PCL-FR-370");
            assert("PCL-FR-370"@.len() != "RO4003"@.len());
            reveal_strlit("PCL-FR-226");
            assert("PCL-FR-226"@.len() != "RO4003"@.len());
            reveal_strlit("N4000-29");
            assert("N4000-29"@.len() != "RO4003"@.len());
            reveal_strlit("Kappa 438");
            assert("Kappa 438"@.len() != "RO4003"@.len());
            reveal_strlit("FR-5");
            assert("FR-5"@.len() != "RO4003"@.len());
            reveal_strlit("Arlon 33N");
            assert("Arlon 33N"@.len() != "RO4003"@.len());
            reveal_strlit("Getek RG200D");
            assert("Getek RG200D"@.len() != "RO4003"@.len());
            reveal_strlit("Arlon 85N");
            assert("Arlon 85N"@.len() != "RO4003"@.len());
            reveal_strlit("Ventec VT-901");
            assert("Ventec VT-901"@.len() != "RO4003"@.len());
            reveal_strlit("Ventec VT-90H");
            assert("Ventec VT-90H"@.len() != "RO4003"@.len());
            reveal_strlit("N4000-7 EF");
            assert("N4000-7 EF"@.len() != "RO4003"@.len());
            reveal_strlit("N7000-1");
            assert("N7000-1"@.len() != "RO4003"@.len());
            reveal_strlit("Getek ML200D");
            assert("Getek ML200D"@.len() != "RO4003"@.len());
            reveal_strlit("Isola P26N");
            assert("Isola P26N"@.len() != "RO4003"@.len());
            reveal_strlit("FR408");
            assert("FR408"@.len() != "RO4003"@.len());
            reveal_strlit("Getek ML200C");
            assert("Getek ML200C"@.len() != "RO4003"@.len());
            reveal_strlit("Getek ML200M");
            assert("Getek ML200M"@.len() != "RO4003"@.len());
            reveal_strlit("Isola P95");
            assert("Isola P95"@.len() != "RO4003"@.len());
            reveal_strlit("Isola P96");
            assert("Isola P96"@.len() != "RO4003"@.len());
            reveal_strlit("N4000-13");
            assert("N4000-13"@.len() != "RO4003"@.len());
            reveal_strlit("N4000-13 EP");
            assert("N4000-13 EP"@.len() != "RO4003"@.len());
            reveal_strlit("RO4350");
            assert("RO4350"@[3] != "RO4003"@[3]);
            reveal_strlit("Megtron6");
            assert("Megtron6"@.len() != "RO4003"@.len());
            reveal_strlit("N4000-13SI");
            assert("N4000-13SI"@.len() != "RO4003"@.len());
            reveal_strlit("N4000-13 EPSI");
            assert("N4000-13 EPSI"@.len() != "RO4003"@.len());
            reveal_strlit("Kapton");
            assert("Kapton"@[0] != "RO4003"@[0]);
        }
    } else if i == 16 {
        assert(saturn_listing("RO4350"@) == Some((366nat, Some(280nat), 100nat))) by {
            reveal_strlit("RO4350");
            reveal_strlit("RO3010");
            assert("RO3010"@[2] != "RO4350"@[2]);
            reveal_strlit("RT6010");
            assert("RT6010"@[1] != "RO4350"@[1]);
            reveal_strlit("RO3006");
            assert("RO3006"@[2] != "RO4350"@[2]);
            reveal_strlit("RT6006");
            assert("RT6006"@[1] != "RO4350"@[1]);
            reveal_strlit("FR406");
            assert("FR406"@.len() != "RO4350"@.len());
            reveal_strlit("Ventec VT-47");
            assert("Ventec VT-47"@.len() != "RO4350"@.len());
            reveal_strlit("FR-4 STD");
            assert("FR-4 STD"@.len() != "RO4350"@.len());
            reveal_strlit("PCL-FR-370HR");
            assert("PCL-FR-370HR"@.len() != "RO4350"@.len());
            reveal_strlit("PCL-FR-240");
            assert("PCL-FR-240"@.len() != "RO4350"@.len());
            reveal_strlit("PCL-FR-370");
            assert("PCL-FR-370"@.len() != "RO4350"@.len());
            reveal_strlit("PCL-FR-226");
            assert("PCL-FR-226"@.len() != "RO4350"@.len());
            reveal_strlit("N4000-29");
            assert("N4000-29"@.len() != "RO4350"@.len());
            reveal_strlit("Kappa 438");
            assert("Kappa 438"@.len() != "RO4350"@.len());
            reveal_strlit("FR-5");
            assert("FR-5"@.len() != "RO4350"@.len());
            reveal_strlit("Arlon 33N");
            assert("Arlon 33N"@.len() != "RO4350"@.len());
            reveal_strlit("Getek RG200D");
            assert("Getek RG200D"@.len() != "RO4350"@.len());
            reveal_strlit("Arlon 85N");
            assert("Arlon 85N"@.len() != "RO4350"@.len());
            reveal_strlit("Ventec VT-901");
            assert("Ventec VT-901"@.len() != "RO4350"@.len());
            reveal_strlit("Ventec VT-90H");
            assert("Ventec VT-90H"@.len() != "RO4350"@.len());
            reveal_strlit("N4000-7 EF");
            assert("N4000-7 EF"@.len() != "RO4350"@.len());
            reveal_strlit("N7000-1");
            assert("N7000-1"@.len() != "RO4350"@.len());
            reveal_strlit("Getek ML200D");
            assert("Getek ML200D"@.len() != "RO4350"@.len());
            reveal_strlit("Isola P26N");
            assert("Isola P26N"@.len() != "RO4350"@.len());
            reveal_strlit("FR408");
            assert("FR408"@.len() != "RO4350"@.len());
            reveal_strlit("Getek ML200C");
            assert("Getek ML200C"@.len() != "RO4350"@.len());
            reveal_strlit("Getek ML200M");
            assert("Getek ML200M"@.len() != "RO4350"@.len());
            reveal_strlit("Isola P95");
            assert("Isola P95"@.len() != "RO4350"@.len());
            reveal_strlit("Isola P96");
            assert("Isola P96"@.len() != "RO4350"@.len());
            reveal_strlit("N4000-13");
            assert("N4000-13"@.len() != "RO4350"@.len());
            reveal_strlit("N4000-13 EP");
            assert("N4000-13 EP"@.len() != "RO4350"@.len());
        }
    } else if i == 17 {
        assert(saturn_listing("RT5500"@) == Some((250nat, Some(260nat), 100nat))) by {
            reveal_strlit("RT5500");
            reveal_strlit("RO3010");
            assert("RO3010"@[1] != "RT5500"@[1]);
            reveal_strlit("RT6010");
            assert("RT6010"@[2] != "RT5500"@[2]);
            reveal_strlit("RO3006");
            assert("RO3006"@[1] != "RT5500"@[1]);
            reveal_strlit("RT6006");
            assert("RT6006"@[2] != "RT5500"@[2]);
            reveal_strlit("FR406");
            assert("FR406"@.len() != "RT5500"@.len());
            reveal_strlit("Ventec VT-47");
            assert("Ventec VT-47"@.len() != "RT5500"@.len());
            reveal_strlit("FR-4 STD");
            assert("FR-4 STD"@.len() != "RT5500"@.len());
            reveal_strlit("PCL-FR-370HR");
            assert("PCL-FR-370HR"@.len() != "RT5500"@.len());
            reveal_strlit("PCL-FR-240");
            assert("PCL-FR-240"@.len() != "RT5500"@.len());
            reveal_strlit("PCL-FR-370");
            assert("PCL-FR-370"@.len() != "RT5500"@.len());
            reveal_strlit("PCL-FR-226");
            assert("PCL-FR-226"@.len() != "RT5500"@.len());
            reveal_strlit("N4000-29");
            assert("N4000-29"@.len() != "RT5500"@.len());
            reveal_strlit("Kappa 438");
            assert("Kappa 438"@.len() != "RT5500"@.len());
            reveal_strlit("FR-5");
            assert("FR-5"@.len() != "RT5500"@.len());
            reveal_strlit("Arlon 33N");
            assert("Arlon 33N"@.len() != "RT5500"@.len());
            reveal_strlit("Getek RG200D");
            assert("Getek RG200D"@.len() != "RT5500"@.len());
            reveal_strlit("Arlon 85N");
            assert("Arlon 85N"@.len() != "RT5500"@.len());
            reveal_strlit("Ventec VT-901");
            assert("Ventec VT-901"@.len() != "RT5500"@.len());
            reveal_strlit("Ventec VT-90H");
            assert("Ventec VT-90H"@.len() != "RT5500"@.len());
            reveal_strlit("N4000-7 EF");
            assert("N4000-7 EF"@.len() != "RT5500"@.len());
            reveal_strlit("N7000-1");
            assert("N7000-1"@.len() != "RT5500"@.len());
            reveal_strlit("Getek ML200D");
            assert("Getek ML200D"@.len() != "RT5500"@.len());
            reveal_strlit("Isola P26N");
            assert("Isola P26N"@.len() != "RT5500"@.len());
            reveal_strlit("FR408");
            assert("FR408"@.len() != "RT5500"@.len());
            reveal_strlit("Getek ML200C");
            assert("Getek ML200C"@.len() != "RT5500"@.len());
            reveal_strlit("Getek ML200M");
            assert("Getek ML200M"@.len() != "RT5500"@.len());
            reveal_strlit("Isola P95");
            assert("Isola P95"@.len() != "RT5500"@.len());
            reveal_strlit("Isola P96");
            assert("Isola P96"@.len() != "RT5500"@.len());
            reveal_strlit("N4000-13");
            assert("N4000-13"@.len() != "RT5500"@.len());
            reveal_strlit("N4000-13 EP");
            assert("N4000-13 EP"@.len() != "RT5500"@.len());
            reveal_strlit("RO4350");
            assert("RO4350"@[1] != "RT5500"@[1]);
            reveal_strlit("Megtron6");
            assert("Megtron6"@.len() != "RT5500"@.len());
            reveal_strlit("N4000-13SI");
            assert("N4000-13SI"@.len() != "RT5500"@.len());
            reveal_strlit("N4000-13 EPSI");
            assert("N4000-13 EPSI"@.len() != "RT5500"@.len());
            reveal_strlit("Kapton");
            assert("Kapton"@[0] != "RT5500"@[0]);
            reveal_strlit("RO4003");
            assert("RO4003"@[1] != "RT5500"@[1]);
            reveal_strlit("Arlon 25N");
            assert("Arlon 25N"@.len() != "RT5500"@.len());
            reveal_strlit("RO3003");
            assert("RO3003"@[1] != "RT5500"@[1]);
            reveal_strlit("RO2800");
            assert("RO2800"@[1] != "RT5500"@[1]);
            reveal_strlit("RT6002");
            assert("RT6002"@[2] != "RT5500"@[2]);
        }
    } else if i == 18 {
        assert(saturn_listing("RT5870"@) == Some((235nat, Some(260nat), 100nat))) by {
            reveal_strlit("RT5870");
            reveal_strlit("RO3010");
            assert("RO3010"@[1] != "RT5870"@[1]);
            reveal_strlit("RT6010");
            assert("RT6010"@[2] != "RT5870"@[2]);
            reveal_strlit("RO3006");
            assert("RO3006"@[1] != "RT5870"@[1]);
            reveal_strlit("RT6006");
            assert("RT6006"@[2] != "RT5870"@[2]);
            reveal_strlit("FR406");
            assert("FR406"@.len() != "RT5870"@.len());
            reveal_strlit("Ventec VT-47");
            assert("Ventec VT-47"@.len() != "RT5870"@.len());
            reveal_strlit("FR-4 STD");
            assert("FR-4 STD"@.len() != "RT5870"@.len());
            reveal_strlit("PCL-FR-370HR");
            assert("PCL-FR-370HR"@.len() != "RT5870"@.len());
            reveal_strlit("PCL-FR-240");
            assert("PCL-FR-240"@.len() != "RT5870"@.len());
            reveal_strlit("PCL-FR-370");
            assert("PCL-FR-370"@.len() != "RT5870"@.len());
            reveal_strlit("PCL-FR-226");
            assert("PCL-FR-226"@.len() != "RT5870"@.len());
            reveal_strlit("N4000-29");
            assert("N4000-29"@.len() != "RT5870"@.len());
            reveal_strlit("Kappa 438");
            assert("Kappa 438"@.len() != "RT5870"@.len());
            reveal_strlit("FR-5");
            assert("FR-5"@.len() != "RT5870"@.len());
            reveal_strlit("Arlon 33N");
            assert("Arlon 33N"@.len() != "RT5870"@.len());
            reveal_strlit("Getek RG200D");
            assert("Getek RG200D"@.len() != "RT5870"@.len());
            reveal_strlit("Arlon 85N");
            assert("Arlon 85N"@.len() != "RT5870"@.len());
            reveal_strlit("Ventec VT-901");
            assert("Ventec VT-901"@.len() != "RT5870"@.len());
            reveal_strlit("Ventec VT-90H");
            assert("Ventec VT-90H"@.len() != "RT5870"@.len());
            reveal_strlit("N4000-7 EF");
            assert("N4000-7 EF"@.len() != "RT5870"@.len());
            reveal_strlit("N7000-1");
            assert("N7000-1"@.len() != "RT5870"@.len());
            reveal_strlit("Getek ML200D");
            assert("Getek ML200D"@.len() != "RT5870"@.len());
            reveal_strlit("Isola P26N");
            assert("Isola P26N"@.len() != "RT5870"@.len());
            reveal_strlit("FR408");
            assert("FR408"@.len() != "RT5870"@.len());
            reveal_strlit("Getek ML200C");
            assert("Getek ML200C"@.len() != "RT5870"@.len());
            reveal_strlit("Getek ML200M");
            assert("Getek ML200M"@.len() != "RT5870"@.len());
            reveal_strlit("Isola P95");
            assert("Isola P95"@.len() != "RT5870"@.len());
            reveal_strlit("Isola P96");
            assert("Isola P96"@.len() != "RT5870"@.len());
            reveal_strlit("N4000-13");
            assert("N4000-13"@.len() != "RT5870"@.len());
            reveal_strlit("N4000-13 EP");
            assert("N4000-13 EP"@.len() != "RT5870"@.len());
            reveal_strlit("RO4350");
            assert("RO4350"@[1] != "RT5870"@[1]);
            reveal_strlit("Megtron6");
            assert("Megtron6"@.len() != "RT5870"@.len());
            reveal_strlit("N4000-13SI");
            assert("N4000-13SI"@.len() != "RT5870"@.len());
            reveal_strlit("N4000-13 EPSI");
            assert("N4000-13 EPSI"@.len() != "RT5870"@.len());
            reveal_strlit("Kapton");
            assert("Kapton"@[0] != "RT5870"@[0]);
            reveal_strlit("RO4003");
            assert("RO4003"@[1] != "RT5870"@[1]);
            reveal_strlit("Arlon 25N");
            assert("Arlon 25N"@.len() != "RT5870"@.len());
            reveal_strlit("RO3003");
            assert("RO3003"@[1] != "RT5870"@[1]);
            reveal_strlit("RO2800");
            assert("RO2800"@[1] != "RT5870"@[1]);
            reveal_strlit("RT6002");
            assert("RT6002"@[2] != "RT5870"@[2]);
            reveal_strlit("RT5500");
            assert("RT5500"@[3] != "RT5870"@[3]);
        }
    } else if i == 19 {
        assert(saturn_listing("RT5880"@) == Some((220nat, Some(260nat), 100nat))) by {
            reveal_strlit("RT5880");
            reveal_strlit("RO3010");
            assert("RO3010"@[1] != "RT5880"@[1]);
            reveal_strlit("RT6010");
            assert("RT6010"@[2] != "RT5880"@[2]);
            reveal_strlit("RO3006");
            assert("RO3006"@[1] != "RT5880"@[1]);
            reveal_strlit("RT6006");
            assert("RT6006"@[2] != "RT5880"@[2]);
            reveal_strlit("FR406");
            assert("FR406"@.len() != "RT5880"@.len());
            reveal_strlit("Ventec VT-47");
            assert("Ventec VT-47"@.len() != "RT5880"@.len());
            reveal_strlit("FR-4 STD");
            assert("FR-4 STD"@.len() != "RT5880"@.len());
            reveal_strlit("PCL-FR-370HR");
            assert("PCL-FR-370HR"@.len() != "RT5880"@.len());
            reveal_strlit("PCL-FR-240");
            assert("PCL-FR-240"@.len() != "RT5880"@.len());
            reveal_strlit("PCL-FR-370");
            assert("PCL-FR-370"@.len() != "RT5880"@.len());
            reveal_strlit("PCL-FR-226");
            assert("PCL-FR-226"@.len() != "RT5880"@.len());
            reveal_strlit("N4000-29");
            assert("N4000-29"@.len() != "RT5880"@.len());
            reveal_strlit("Kappa 438");
            assert("Kappa 438"@.len() != "RT5880"@.len());
            reveal_strlit("FR-5");
            assert("FR-5"@.len() != "RT5880"@.len());
            reveal_strlit("Arlon 33N");
            assert("Arlon 33N"@.len() != "RT5880"@.len());
            reveal_strlit("Getek RG200D");
            assert("Getek RG200D"@.len() != "RT5880"@.len());
            reveal_strlit("Arlon 85N");
            assert("Arlon 85N"@.len() != "RT5880"@.len());
            reveal_strlit("Ventec VT-901");
            assert("Ventec VT-901"@.len() != "RT5880"@.len());
            reveal_strlit("Ventec VT-90H");
            assert("Ventec VT-90H"@.len() != "RT5880"@.len());
            reveal_strlit("N4000-7 EF");
            assert("N4000-7 EF"@.len() != "RT5880"@.len());
            reveal_strlit("N7000-1");
            assert("N7000-1"@.len() != "RT5880"@.len());
            reveal_strlit("Getek ML200D");
            assert("Getek ML200D"@.len() != "RT5880"@.len());
            reveal_strlit("Isola P26N");
            assert("Isola P26N"@.len() != "RT5880"@.len());
            reveal_strlit("FR408");
            assert("FR408"@.len() != "RT5880"@.len());
            reveal_strlit("Getek ML200C");
            assert("Getek ML200C"@.len() != "RT5880"@.len());
            reveal_strlit("Getek ML200M");
            assert("Getek ML200M"@.len() != "RT5880"@.len());
            reveal_strlit("Isola P95");
            assert("Isola P95"@.len() != "RT5880"@.len());
            reveal_strlit("Isola P96");
            assert("Isola P96"@.len() != "RT5880"@.len());
            reveal_strlit("N4000-13");
            assert("N4000-13"@.len() != "RT5880"@.len());
            reveal_strlit("N4000-13 EP");
            assert("N4000-13 EP"@.len() != "RT5880"@.len());
            reveal_strlit("RO4350");
            assert("RO4350"@[1] != "RT5880"@[1]);
            reveal_strlit("Megtron6");
            assert("Megtron6"@.len() != "RT5880"@.len());
            reveal_strlit("N4000-13SI");
            assert("N4000-13SI"@.len() != "RT5880"@.len());
            reveal_strlit("N4000-13 EPSI");
            assert("N4000-13 EPSI"@.len() != "RT5880"@.len());
            reveal_strlit("Kapton");
            assert("Kapton"@[0] != "RT5880"@[0]);
            reveal_strlit("RO4003");
            assert("RO4003"@[1] != "RT5880"@[1]);
            reveal_strlit("Arlon 25N");
            assert("Arlon 25N"@.len() != "RT5880"@.len());
            reveal_strlit("RO3003");
            assert("RO3003"@[1] != "RT5880"@[1]);
            reveal_strlit("RO2800");
            assert("RO2800"@[1] != "RT5880"@[1]);
            reveal_strlit("RT6002");
            assert("RT6002"@[2] != "RT5880"@[2]);
            reveal_strlit("RT5500");
            assert("RT5500"@[3] != "RT5880"@[3]);
            reveal_strlit("RT5870");
            assert("RT5870"@[4] != "RT5880"@[4]);
        }
    } else if i == 20 {
        assert(saturn_listing("RT6002"@) == Some((294nat, None::<nat>, 100nat))) by {
            reveal_strlit("RT6002");
            reveal_strlit("RO3010");
            assert("RO3010"@[1] != "RT6002"@[1]);
            reveal_strlit("RT6010");
            assert("RT6010"@[4] != "RT6002"@[4]);
            reveal_strlit("RO3006");
            assert("RO3006"@[1] != "RT6002"@[1]);
            reveal_strlit("RT6006");
            assert("RT6006"@[5] != "RT6002"@[5]);
            reveal_strlit("FR406");
            assert("FR406"@.len() != "RT6002"@.len());
            reveal_strlit("Ventec VT-47");
            assert("Ventec VT-47"@.len() != "RT6002"@.len());
            reveal_strlit("FR-4 STD");
            assert("FR-4 STD"@.len() != "RT6002"@.len());
            reveal_strlit("PCL-FR-370HR");
            assert("PCL-FR-370HR"@.len() != "RT6002"@.len());
            reveal_strlit("PCL-FR-240");
            assert("PCL-FR-240"@.len() != "RT6002"@.len());
            reveal_strlit("PCL-FR-370");
            assert("PCL-FR-370"@.len() != "RT6002"@.len());
            reveal_strlit("PCL-FR-226");
            assert("PCL-FR-226"@.len() != "RT6002"@.len());
            reveal_strlit("N4000-29");
            assert("N4000-29"@.len() != "RT6002"@.len());
            reveal_strlit("Kappa 438");
            assert("Kappa 438"@.len() != "RT6002"@.len());
            reveal_strlit("FR-5");
            assert("FR-5"@.len() != "RT6002"@.len());
            reveal_strlit("Arlon 33N");
            assert("Arlon 33N"@.len() != "RT6002"@.len());
            reveal_strlit("Getek RG200D");
            assert("Getek RG200D"@.len() != "RT6002"@.len());
            reveal_strlit("Arlon 85N");
            assert("Arlon 85N"@.len() != "RT6002"@.len());
            reveal_strlit("Ventec VT-901");
            assert("Ventec VT-901"@.len() != "RT6002"@.len());
            reveal_strlit("Ventec VT-90H");
            assert("Ventec VT-90H"@.len() != "RT6002"@.len());
            reveal_strlit("N4000-7 EF");
            assert("N4000-7 EF"@.len() != "RT6002"@.len());
            reveal_strlit("N7000-1");
            assert("N7000-1"@.len() != "RT6002"@.len());
            reveal_strlit("Getek ML200D");
            assert("Getek ML200D"@.len() != "RT6002"@.len());
            reveal_strlit("Isola P26N");
            assert("Isola P26N"@.len() != "RT6002"@.len());
            reveal_strlit("FR408");
            assert("FR408"@.len() != "RT6002"@.len());
            reveal_strlit("Getek ML200C");
            assert("Getek ML200C"@.len() != "RT6002"@.len());
            reveal_strlit("Getek ML200M");
            assert("Getek ML200M"@.len() != "RT6002"@.len());
            reveal_strlit("Isola P95");
            assert("Isola P95"@.len() != "RT6002"@.len());
            reveal_strlit("Isola P96");
            assert("Isola P96"@.len() != "RT6002"@.len());
            reveal_strlit("N4000-13");
            assert("N4000-13"@.len() != "RT6002"@.len());
            reveal_strlit("N4000-13 EP");
            assert("N4000-13 EP"@.len() != "RT6002"@.len());
            reveal_strlit("RO4350");
            assert("RO4350"@[1] != "RT6002"@[1]);
            reveal_strlit("Megtron6");
            assert("Megtron6"@.len() != "RT6002"@.len());
            reveal_strlit("N4000-13SI");
            assert("N4000-13SI"@.len() != "RT6002"@.len());
            reveal_strlit("N4000-13 EPSI");
            assert("N4000-13 EPSI"@.len() != "RT6002"@.len());
            reveal_strlit("Kapton");
            assert("Kapton"@[0] != "RT6002"@[0]);
            reveal_strlit("RO4003");
            assert("RO4003"@[1] != "RT6002"@[1]);
            reveal_strlit("Arlon 25N");
            assert("Arlon 25N"@.len() != "RT6002"@.len());
            reveal_strlit("RO3003");
            assert("RO3003"@[1] != "RT6002"@[1]);
            reveal_strlit("RO2800");
            assert("RO2800"@[1] != "RT6002"@[1]);
        }
    } else if i == 21 {
        assert(saturn_listing("RT6006"@) == Some((615nat, None::<nat>, 100nat))) by {
            reveal_strlit("RT6006");
            reveal_strlit("RO3010");
            assert("RO3010"@[1] != "RT6006"@[1]);
            reveal_strlit("RT6010");
            assert("RT6010"@[4] != "RT6006"@[4]);
            reveal_strlit("RO3006");
            assert("RO3006"@[1] != "RT6006"@[1]);
        }
    } else if i == 22 {
        assert(saturn_listing("RT6010"@) == Some((1020nat, None::<nat>, 100nat))) by {
            reveal_strlit("RT6010");
            reveal_strlit("RO3010");
            assert("RO3010"@[1] != "RT6010"@[1]);
        }
    } else if i == 23 {
        assert(saturn_listing("Teflon PTFE"@) == Some((210nat, Some(240nat), 100nat))) by {
            reveal_strlit("Teflon PTFE");
            reveal_strlit("RO3010");
            assert("RO3010"@.len() != "Teflon PTFE"@.len());
            reveal_strlit("RT6010");
            assert("RT6010"@.len() != "Teflon PTFE"@.len());
            reveal_strlit("RO3006");
            assert("RO3006"@.len() != "Teflon PTFE"@.len());
            reveal_strlit("RT6006");
            assert("RT6006"@.len() != "Teflon PTFE"@.len());
            reveal_strlit("FR406");
            assert("FR406"@.len() != "Teflon PTFE"@.len());
            reveal_strlit("Ventec VT-47");
            assert("Ventec VT-47"@.len() != "Teflon PTFE"@.len());
            reveal_strlit("FR-4 STD");
            assert("FR-4 STD"@.len() != "Teflon PTFE"@.len());
            reveal_strlit("PCL-FR-370HR");
            assert("PCL-FR-370HR"@.len() != "Teflon PTFE"@.len());
            reveal_strlit("PCL-FR-240");
            assert("PCL-FR-240"@.len() != "Teflon PTFE"@.len());
            reveal_strlit("PCL-FR-370");
            assert("PCL-FR-370"@.len() != "Teflon PTFE"@.len());
            reveal_strlit("PCL-FR-226");
            assert("PCL-FR-226"@.len() != "Teflon PTFE"@.len());
            reveal_strlit("N4000-29");
            assert("N4000-29"@.len() != "Teflon PTFE"@.len());
            reveal_strlit("Kappa 438");
            assert("Kappa 438"@.len() != "Teflon PTFE"@.len());
            reveal_strlit("FR-5");
            assert("FR-5"@.len() != "Teflon PTFE"@.len());
            reveal_strlit("Arlon 33N");
            assert("Arlon 33N"@.len() != "Teflon PTFE"@.len());
            reveal_strlit("Getek RG200D");
            assert("Getek RG200D"@.len() != "Teflon PTFE"@.len());
            reveal_strlit("Arlon 85N");
            assert("Arlon 85N"@.len() != "Teflon PTFE"@.len());
            reveal_strlit("Ventec VT-901");
            assert("Ventec VT-901"@.len() != "Teflon PTFE"@.len());
            reveal_strlit("Ventec VT-90H");
            assert("Ventec VT-90H"@.len() != "Teflon PTFE"@.len());
            reveal_strlit("N4000-7 EF");
            assert("N4000-7 EF"@.len() != "Teflon PTFE"@.len());
            reveal_strlit("N7000-1");
            assert("N7000-1"@.len() != "Teflon PTFE"@.len());
            reveal_strlit("Getek ML200D");
            assert("Getek ML200D"@.len() != "Teflon PTFE"@.len());
            reveal_strlit("Isola P26N");
            assert("Isola P26N"@.len() != "Teflon PTFE"@.len());
            reveal_strlit("FR408");
            assert("FR408"@.len() != "Teflon PTFE"@.len());
            reveal_strlit("Getek ML200C");
            assert("Getek ML200C"@.len() != "Teflon PTFE"@.len());
            reveal_strlit("Getek ML200M");
            assert("Getek ML200M"@.len() != "Teflon PTFE"@.len());
            reveal_strlit("Isola P95");
            assert("Isola P95"@.len() != "Teflon PTFE"@.len());
            reveal_strlit("Isola P96");
            assert("Isola P96"@.len() != "Teflon PTFE"@.len());
            reveal_strlit("N4000-13");
            assert("N4000-13"@.len() != "Teflon PTFE"@.len());
            reveal_strlit("N4000-13 EP");
            assert("N4000-13 EP"@[0] != "Teflon PTFE"@[0]);
            reveal_strlit("RO4350");
            assert("RO4350"@.len() != "Teflon PTFE"@.len());
            reveal_strlit("Megtron6");
            assert("Megtron6"@.len() != "Teflon PTFE"@.len());
            reveal_strlit("N4000-13SI");
            assert("N4000-13SI"@.len() != "Teflon PTFE"@.len());
            reveal_strlit("N4000-13 EPSI");
            assert("N4000-13 EPSI"@.len() != "Teflon PTFE"@.len());
            reveal_strlit("Kapton");
            assert("Kapton"@.len() != "Teflon PTFE"@.len());
            reveal_strlit("RO4003");
            assert("RO4003"@.len() != "Teflon PTFE"@.len());
            reveal_strlit("Arlon 25N");
            assert("Arlon 25N"@.len() != "Teflon PTFE"@.len());
            reveal_strlit("RO3003");
            assert("RO3003"@.len() != "Teflon PTFE"@.len());
            reveal_strlit("RO2800");
            assert("RO2800"@.len() != "Teflon PTFE"@.len());
            reveal_strlit("RT6002");
            assert("RT6002"@.len() != "Teflon PTFE"@.len());
            reveal_strlit("RT5500");
            assert("RT5500"@.len() != "Teflon PTFE"@.len());
            reveal_strlit("RT5870");
            assert("RT5870"@.len() != "Teflon PTFE"@.len());
            reveal_strlit("RT5880");
            assert("RT5880"@.len() != "Teflon PTFE"@.len());
        }
    } else if i == 24 {
        assert(saturn_listing("Arlon 25N"@) == Some((338nat, Some(260nat), 100nat))) by {
            reveal_strlit("Arlon 25N");
            reveal_strlit("RO3010");
            assert("RO3010"@.len() != "Arlon 25N"@.len());
            reveal_strlit("RT6010");
            assert("RT6010"@.len() != "Arlon 25N"@.len());
            reveal_strlit("RO3006");
            assert("RO3006"@.len() != "Arlon 25N"@.len());
            reveal_strlit("RT6006");
            assert("RT6006"@.len() != "Arlon 25N"@.len());
            reveal_strlit("FR406");
            assert("FR406"@.len() != "Arlon 25N"@.len());
            reveal_strlit("Ventec VT-47");
            assert("Ventec VT-47"@.len() != "Arlon 25N"@.len());
            reveal_strlit("FR-4 STD");
            assert("FR-4 STD"@.len() != "Arlon 25N"@.len());
            reveal_strlit("PCL-FR-370HR");
            assert("PCL-FR-370HR"@.len() != "Arlon 25N"@.len());
            reveal_strlit("PCL-FR-240");
            assert("PCL-FR-240"@.len() != "Arlon 25N"@.len());
            reveal_strlit("PCL-FR-370");
            assert("PCL-FR-370"@.len() != "Arlon 25N"@.len());
            reveal_strlit("PCL-FR-226");
            assert("PCL-FR-226"@.len() != "Arlon 25N"@.len());
            reveal_strlit("N4000-29");
            assert("N4000-29"@.len() != "Arlon 25N"@.len());
            reveal_strlit("Kappa 438");
            assert("Kappa 438"@[0] != "Arlon 25N"@[0]);
            reveal_strlit("FR-5");
            assert("FR-5"@.len() != "Arlon 25N"@.len());
            reveal_strlit("Arlon 33N");
            assert("Arlon 33N"@[6] != "Arlon 25N"@[6]);
            reveal_strlit("Getek RG200D");
            assert("Getek RG200D"@.len() != "Arlon 25N"@.len());
            reveal_strlit("Arlon 85N");
            assert("Arlon 85N"@[6] != "Arlon 25N"@[6]);
            reveal_strlit("Ventec VT-901");
            assert("Ventec VT-901"@.len() != "Arlon 25N"@.len());
            reveal_strlit("Ventec VT-90H");
            assert("Ventec VT-90H"@.len() != "Arlon 25N"@.len());
            reveal_strlit("N4000-7 EF");
            assert("N4000-7 EF"@.len() != "Arlon 25N"@.len());
            reveal_strlit("N7000-1");
            assert("N7000-1"@.len() != "Arlon 25N"@.len());
            reveal_strlit("Getek ML200D");
            assert("Getek ML200D"@.len() != "Arlon 25N"@.len());
            reveal_strlit("Isola P26N");
            assert("Isola P26N"@.len() != "Arlon 25N"@.len());
            reveal_strlit("FR408");
            assert("FR408"@.len() != "Arlon 25N"@.len());
            reveal_strlit("Getek ML200C");
            assert("Getek ML200C"@.len() != "Arlon 25N"@.len());
            reveal_strlit("Getek ML200M");
            assert("Getek ML200M"@.len() != "Arlon 25N"@.len());
            reveal_strlit("Isola P95");
            assert("Isola P95"@[0] != "Arlon 25N"@[0]);
            reveal_strlit("Isola P96");
            assert("Isola P96"@[0] != "Arlon 25N"@[0]);
            reveal_strlit("N4000-13");
            assert("N4000-13"@.len() != "Arlon 25N"@.len());
            reveal_strlit("N4000-13 EP");
            assert("N4000-13 EP"@.len() != "Arlon 25N"@.len());
            reveal_strlit("RO4350");
            assert("RO4350"@.len() != "Arlon 25N"@.len());
            reveal_strlit("Megtron6");
            assert("Megtron6"@.len() != "Arlon 25N"@.len());
            reveal_strlit("N4000-13SI");
            assert("N4000-13SI"@.len() != "Arlon 25N"@.len());
            reveal_strlit("N4000-13 EPSI");
            assert("N4000-13 EPSI"@.len() != "Arlon 25N"@.len());
            reveal_strlit("Kapton");
            assert("Kapton"@.len() != "Arlon 25N"@.len());
            reveal_strlit("RO4003");
            assert("RO4003"@.len() != "Arlon 25N"@.len());
        }
    } else if i == 25 {
        assert(saturn_listing("Arlon 33N"@) == Some((425nat, Some(250nat), 100nat))) by {
            reveal_strlit("Arlon 33N");
            reveal_strlit("RO3010");
            assert("RO3010"@.len() != "Arlon 33N"@.len());
            reveal_strlit("RT6010");
            assert("RT6010"@.len() != "Arlon 33N"@.len());
            reveal_strlit("RO3006");
            assert("RO3006"@.len() != "Arlon 33N"@.len());
            reveal_strlit("RT6006");
            assert("RT6006"@.len() != "Arlon 33N"@.len());
            reveal_strlit("FR406");
            assert("FR406"@.len() != "Arlon 33N"@.len());
            reveal_strlit("Ventec VT-47");
            assert("Ventec VT-47"@.len() != "Arlon 33N"@.len());
            reveal_strlit("FR-4 STD");
            assert("FR-4 STD"@.len() != "Arlon 33N"@.len());
            reveal_strlit("PCL-FR-370HR");
            assert("PCL-FR-370HR"@.len() != "Arlon 33N"@.len());
            reveal_strlit("PCL-FR-240");
            assert("PCL-FR-240"@.len() != "Arlon 33N"@.len());
            reveal_strlit("PCL-FR-370");
            assert("PCL-FR-370"@.len() != "Arlon 33N"@.len());
            reveal_strlit("PCL-FR-226");
            assert("PCL-FR-226"@.len() != "Arlon 33N"@.len());
            reveal_strlit("N4000-29");
            assert("N4000-29"@.len() != "Arlon 33N"@.len());
            reveal_strlit("Kappa 438");
            assert("Kappa 438"@[0] != "Arlon 33N"@[0]);
            reveal_strlit("FR-5");
            assert("FR-5"@.len() != "Arlon 33N"@.len());
        }
    } else if i == 26 {
        assert(saturn_listing("Arlon 85N"@) == Some((420nat, Some(250nat), 100nat))) by {
            reveal_strlit("Arlon 85N");
            reveal_strlit("RO3010");
            assert("RO3010"@.len() != "Arlon 85N"@.len());
            reveal_strlit("RT6010");
            assert("RT6010"@.len() != "Arlon 85N"@.len());
            reveal_strlit("RO3006");
            assert("RO3006"@.len() != "Arlon 85N"@.len());
            reveal_strlit("RT6006");
            assert("RT6006"@.len() != "Arlon 85N"@.len());
            reveal_strlit("FR406");
            assert("FR406"@.len() != "Arlon 85N"@.len());
            reveal_strlit("Ventec VT-47");
            assert("Ventec VT-47"@.len() != "Arlon 85N"@.len());
            reveal_strlit("FR-4 STD");
            assert("FR-4 STD"@.len() != "Arlon 85N"@.len());
            reveal_strlit("PCL-FR-370HR");
            assert("PCL-FR-370HR"@.len() != "Arlon 85N"@.len());
            reveal_strlit("PCL-FR-240");
            assert("PCL-FR-240"@.len() != "Arlon 85N"@.len());
            reveal_strlit("PCL-FR-370");
            assert("PCL-FR-370"@.len() != "Arlon 85N"@.len());
            reveal_strlit("PCL-FR-226");
            assert("PCL-FR-226"@.len() != "Arlon 85N"@.len());
            reveal_strlit("N4000-29");
            assert("N4000-29"@.len() != "Arlon 85N"@.len());
            reveal_strlit("Kappa 438");
            assert("Kappa 438"@[0] != "Arlon 85N"@[0]);
            reveal_strlit("FR-5");
            assert("FR-5"@.len() != "Arlon 85N"@.len());
            reveal_strlit("Arlon 33N");
            assert("Arlon 33N"@[6] != "Arlon 85N"@[6]);
            reveal_strlit("Getek RG200D");
            assert("Getek RG200D"@.len() != "Arlon 85N"@.len());
        }
    } else if i == 27 {
        assert(saturn_listing("PCL-FR-226"@) == Some((450nat, Some(140nat), 98nat))) by {
            reveal_strlit("PCL-FR-226");
            reveal_strlit("RO3010");
            assert("RO3010"@.len() != "PCL-FR-226"@.len());
            reveal_strlit("RT6010");
            assert("RT6010"@.len() != "PCL-FR-226"@.len());
            reveal_strlit("RO3006");
            assert("RO3006"@.len() != "PCL-FR-226"@.len());
            reveal_strlit("RT6006");
            assert("RT6006"@.len() != "PCL-FR-226"@.len());
            reveal_strlit("FR406");
            assert("FR406"@.len() != "PCL-FR-226"@.len());
            reveal_strlit("Ventec VT-47");
            assert("Ventec VT-47"@.len() != "PCL-FR-226"@.len());
            reveal_strlit("FR-4 STD");
            assert("FR-4 STD"@.len() != "PCL-FR-226"@.len());
            reveal_strlit("PCL-FR-370HR");
            assert("PCL-FR-370HR"@.len() != "PCL-FR-226"@.len());
            reveal_strlit("PCL-FR-240");
            assert("PCL-FR-240"@[8] != "PCL-FR-226"@[8]);
            reveal_strlit("PCL-FR-370");
            assert("PCL-FR-370"@[7] != "PCL-FR-226"@[7]);
        }
    } else if i == 28 {
        assert(saturn_listing("PCL-FR-240"@) == Some((450nat, Some(140nat), 98nat))) by {
            reveal_strlit("PCL-FR-240");
            reveal_strlit("RO3010");
            assert("RO3010"@.len() != "PCL-FR-240"@.len());
            reveal_strlit("RT6010");
            assert("RT6010"@.len() != "PCL-FR-240"@.len());
            reveal_strlit("RO3006");
            assert("RO3006"@.len() != "PCL-FR-240"@.len());
            reveal_strlit("RT6006");
            assert("RT6006"@.len() != "PCL-FR-240"@.len());
            reveal_strlit("FR406");
            assert("FR406"@.len() != "PCL-FR-240"@.len());
            reveal_strlit("Ventec VT-47");
            assert("Ventec VT-47"@.len() != "PCL-FR-240"@.len());
            reveal_strlit("FR-4 STD");
            assert("FR-4 STD"@.len() != "PCL-FR-240"@.len());
            reveal_strlit("PCL-FR-370HR");
            assert("PCL-FR-370HR"@.len() != "PCL-FR-240"@.len());
        }
    } else if i == 29 {
        assert(saturn_listing("PCL-FR-370"@) == Some((450nat, Some(175nat), 98nat))) by {
            reveal_strlit("PCL-FR-370");
            reveal_strlit("RO3010");
            assert("RO3010"@.len() != "PCL-FR-370"@.len());
            reveal_strlit("RT6010");
            assert("RT6010"@.len() != "PCL-FR-370"@.len());
            reveal_strlit("RO3006");
            assert("RO3006"@.len() != "PCL-FR-370"@.len());
            reveal_strlit("RT6006");
            assert("RT6006"@.len() != "PCL-FR-370"@.len());
            reveal_strlit("FR406");
            assert("FR406"@.len() != "PCL-FR-370"@.len());
            reveal_strlit("Ventec VT-47");
            assert("Ventec VT-47"@.len() != "PCL-FR-370"@.len());
            reveal_strlit("FR-4 STD");
            assert("FR-4 STD"@.len() != "PCL-FR-370"@.len());
            reveal_strlit("PCL-FR-370HR");
            assert("PCL-FR-370HR"@.len() != "PCL-FR-370"@.len());
            reveal_strlit("PCL-FR-240");
            assert("PCL-FR-240"@[7] != "PCL-FR-370"@[7]);
        }
    } else if i == 30 {
        assert(saturn_listing("PCL-FR-370HR"@) == Some((460nat, Some(180nat), 98nat))) by {
            reveal_strlit("PCL-FR-370HR");
            reveal_strlit("RO3010");
            assert("RO3010"@.len() != "PCL-FR-370HR"@.len());
            reveal_strlit("RT6010");
            assert("RT6010"@.len() != "PCL-FR-370HR"@.len());
            reveal_strlit("RO3006");
            assert("RO3006"@.len() != "PCL-FR-370HR"@.len());
            reveal_strlit("RT6006");
            assert("RT6006"@.len() != "PCL-FR-370HR"@.len());
            reveal_strlit("FR406");
            assert("FR406"@.len() != "PCL-FR-370HR"@.len());
            reveal_strlit("Ventec VT-47");
            assert("Ventec VT-47"@[0] != "PCL-FR-370HR"@[0]);
            reveal_strlit("FR-4 STD");
            assert("FR-4 STD"@.len() != "PCL-FR-370HR"@.len());
        }
    } else if i == 31 {
        assert(saturn_listing("N4000-7 EF"@) == Some((410nat, Some(165nat), 98nat))) by {
            reveal_strlit("N4000-7 EF");
            reveal_strlit("RO3010");
            assert("RO3010"@.len() != "N4000-7 EF"@.len());
            reveal_strlit("RT6010");
            assert("RT6010"@.len() != "N4000-7 EF"@.len());
            reveal_strlit("RO3006");
            assert("RO3006"@.len() != "N4000-7 EF"@.len());
            reveal_strlit("RT6006");
            assert("RT6006"@.len() != "N4000-7 EF"@.len());
            reveal_strlit("FR406");
            assert("FR406"@.len() != "N4000-7 EF"@.len());
            reveal_strlit("Ventec VT-47");
            assert("Ventec VT-47"@.len() != "N4000-7 EF"@.len());
            reveal_strlit("FR-4 STD");
            assert("FR-4 STD"@.len() != "N4000-7 EF"@.len());
            reveal_strlit("PCL-FR-370HR");
            assert("PCL-FR-370HR"@.len() != "N4000-7 EF"@.len());
            reveal_strlit("PCL-FR-240");
            assert("PCL-FR-240"@[0] != "N4000-7 EF"@[0]);
            reveal_strlit("PCL-FR-370");
            assert("PCL-FR-370"@[0] != "N4000-7 EF"@[0]);
            reveal_strlit("PCL-FR-226");
            assert("PCL-FR-226"@[0] != "N4000-7 EF"@[0]);
            reveal_strlit("N4000-29");
            assert("N4000-29"@.len() != "N4000-7 EF"@.len());
            reveal_strlit("Kappa 438");
            assert("Kappa 438"@.len() != "N4000-7 EF"@.len());
            reveal_strlit("FR-5");
            assert("FR-5"@.len() != "N4000-7 EF"@.len());
            reveal_strlit("Arlon 33N");
            assert("Arlon 33N"@.len() != "N4000-7 EF"@.len());
            reveal_strlit("Getek RG200D");
            assert("Getek RG200D"@.len() != "N4000-7 EF"@.len());
            reveal_strlit("Arlon 85N");
            assert("Arlon 85N"@.len() != "N4000-7 EF"@.len());
            reveal_strlit("Ventec VT-901");
            assert("Ventec VT-901"@.len() != "N4000-7 EF"@.len());
            reveal_strlit("Ventec VT-90H");
            assert("Ventec VT-90H"@.len() != "N4000-7 EF"@.len());
        }
    } else if i == 32 {
        assert(saturn_listing("N4000-13"@) == Some((370nat, Some(210nat), 98nat))) by {
            reveal_strlit("N4000-13");
            reveal_strlit("RO3010");
            assert("RO3010"@.len() != "N4000-13"@.len());
            reveal_strlit("RT6010");
            assert("RT6010"@.len() != "N4000-13"@.len());
            reveal_strlit("RO3006");
            assert("RO3006"@.len() != "N4000-13"@.len());
            reveal_strlit("RT6006");
            assert("RT6006"@.len() != "N4000-13"@.len());
            reveal_strlit("FR406");
            assert("FR406"@.len() != "N4000-13"@.len());
            reveal_strlit("Ventec VT-47");
            assert("Ventec VT-47"@.len() != "N4000-13"@.len());
            reveal_strlit("FR-4 STD");
            assert("FR-4 STD"@[0] != "N4000-13"@[0]);
            reveal_strlit("PCL-FR-370HR");
            assert("PCL-FR-370HR"@.len() != "N4000-13"@.len());
            reveal_strlit("PCL-FR-240");
            assert("PCL-FR-240"@.len() != "N4000-13"@.len());
            reveal_strlit("PCL-FR-370");
            assert("PCL-FR-370"@.len() != "N4000-13"@.len());
            reveal_strlit("PCL-FR-226");
            assert("PCL-FR-226"@.len() != "N4000-13"@.len());
            reveal_strlit("N4000-29");
            assert("N4000-29"@[6] != "N4000-13"@[6]);
            reveal_strlit("Kappa 438");
            assert("Kappa 438"@.len() != "N4000-13"@.len());
            reveal_strlit("FR-5");
            assert("FR-5"@.len() != "N4000-13"@.len());
            reveal_strlit("Arlon 33N");
            assert("Arlon 33N"@.len() != "N4000-13"@.len());
            reveal_strlit("Getek RG200D");
            assert("Getek RG200D"@.len() != "N4000-13"@.len());
            reveal_strlit("Arlon 85N");
            assert("Arlon 85N"@.len() != "N4000-13"@.len());
            reveal_strlit("Ventec VT-901");
            assert("Ventec VT-901"@.len() != "N4000-13"@.len());
            reveal_strlit("Ventec VT-90H");
            assert("Ventec VT-90H"@.len() != "N4000-13"@.len());
            reveal_strlit("N4000-7 EF");
            assert("N4000-7 EF"@.len() != "N4000-13"@.len());
            reveal_strlit("N7000-1");
            assert("N7000-1"@.len() != "N4000-13"@.len());
            reveal_strlit("Getek ML200D");
            assert("Getek ML200D"@.len() != "N4000-13"@.len());
            reveal_strlit("Isola P26N");
            assert("Isola P26N"@.len() != "N4000-13"@.len());
            reveal_strlit("FR408");
            assert("FR408"@.len() != "N4000-13"@.len());
            reveal_strlit("Getek ML200C");
            assert("Getek ML200C"@.len() != "N4000-13"@.len());
            reveal_strlit("Getek ML200M");
            assert("Getek ML200M"@.len() != "N4000-13"@.len());
            reveal_strlit("Isola P95");
            assert("Isola P95"@.len() != "N4000-13"@.len());
            reveal_strlit("Isola P96");
            assert("Isola P96"@.len() != "N4000-13"@.len());
        }
    } else if i == 33 {
        assert(saturn_listing("N4000-13SI"@) == Some((340nat, Some(210nat), 98nat))) by {
            reveal_strlit("N4000-13SI");
            reveal_strlit("RO3010");
            assert("RO3010"@.len() != "N4000-13SI"@.len());
            reveal_strlit("RT6010");
            assert("RT6010"@.len() != "N4000-13SI"@.len());
            reveal_strlit("RO3006");
            assert("RO3006"@.len() != "N4000-13SI"@.len());
            reveal_strlit("RT6006");
            assert("RT6006"@.len() != "N4000-13SI"@.len());
            reveal_strlit("FR406");
            assert("FR406"@.len() != "N4000-13SI"@.len());
            reveal_strlit("Ventec VT-47");
            assert("Ventec VT-47"@.len() != "N4000-13SI"@.len());
            reveal_strlit("FR-4 STD");
            assert("FR-4 STD"@.len() != "N4000-13SI"@.len());
            reveal_strlit("PCL-FR-370HR");
            assert("PCL-FR-370HR"@.len() != "N4000-13SI"@.len());
            reveal_strlit("PCL-FR-240");
            assert("PCL-FR-240"@[0] != "N4000-13SI"@[0]);
            reveal_strlit("PCL-FR-370");
            assert("PCL-FR-370"@[0] != "N4000-13SI"@[0]);
            reveal_strlit("PCL-FR-226");
            assert("PCL-FR-226"@[0] != "N4000-13SI"@[0]);
            reveal_strlit("N4000-29");
            assert("N4000-29"@.len() != "N4000-13SI"@.len());
            reveal_strlit("Kappa 438");
            assert("Kappa 438"@.len() != "N4000-13SI"@.len());
            reveal_strlit("FR-5");
            assert("FR-5"@.len() != "N4000-13SI"@.len());
            reveal_strlit("Arlon 33N");
            assert("Arlon 33N"@.len() != "N4000-13SI"@.len());
            reveal_strlit("Getek RG200D");
            assert("Getek RG200D"@.len() != "N4000-13SI"@.len());
            reveal_strlit("Arlon 85N");
            assert("Arlon 85N"@.len() != "N4000-13SI"@.len());
            reveal_strlit("Ventec VT-901");
            assert("Ventec VT-901"@.len() != "N4000-13SI"@.len());
            reveal_strlit("Ventec VT-90H");
            assert("Ventec VT-90H"@.len() != "N4000-13SI"@.len());
            reveal_strlit("N4000-7 EF");
            assert("N4000-7 EF"@[6] != "N4000-13SI"@[6]);
            reveal_strlit("N7000-1");
            assert("N7000-1"@.len() != "N4000-13SI"@.len());
            reveal_strlit("Getek ML200D");
            assert("Getek ML200D"@.len() != "N4000-13SI"@.len());
            reveal_strlit("Isola P26N");
            assert("Isola P26N"@[0] != "N4000-13SI"@[0]);
            reveal_strlit("FR408");
            assert("FR408"@.len() != "N4000-13SI"@.len());
            reveal_strlit("Getek ML200C");
            assert("Getek ML200C"@.len() != "N4000-13SI"@.len());
            reveal_strlit("Getek ML200M");
            assert("Getek ML200M"@.len() != "N4000-13SI"@.len());
            reveal_strlit("Isola P95");
            assert("Isola P95"@.len() != "N4000-13SI"@.len());
            reveal_strlit("Isola P96");
            assert("Isola P96"@.len() != "N4000-13SI"@.len());
            reveal_strlit("N4000-13");
            assert("N4000-13"@.len() != "N4000-13SI"@.len());
            reveal_strlit("N4000-13 EP");
            assert("N4000-13 EP"@.len() != "N4000-13SI"@.len());
            reveal_strlit("RO4350");
            assert("RO4350"@.len() != "N4000-13SI"@.len());
            reveal_strlit("Megtron6");
            assert("Megtron6"@.len() != "N4000-13SI"@.len());
        }
    } else if i == 34 {
        assert(saturn_listing("N4000-13 EP"@) == Some((370nat, Some(210nat), 98nat))) by {
            reveal_strlit("N4000-13 EP");
            reveal_strlit("RO3010");
            assert("RO3010"@.len() != "N4000-13 EP"@.len());
            reveal_strlit("RT6010");
            assert("RT6010"@.len() != "N4000-13 EP"@.len());
            reveal_strlit("RO3006");
            assert("RO3006"@.len() != "N4000-13 EP"@.len());
            reveal_strlit("RT6006");
            assert("RT6006"@.len() != "N4000-13 EP"@.len());
            reveal_strlit("FR406");
            assert("FR406"@.len() != "N4000-13 EP"@.len());
            reveal_strlit("Ventec VT-47");
            assert("Ventec VT-47"@.len() != "N4000-13 EP"@.len());
            reveal_strlit("FR-4 STD");
            assert("FR-4 STD"@.len() != "N4000-13 EP"@.len());
            reveal_strlit("PCL-FR-370HR");
            assert("PCL-FR-370HR"@.len() != "N4000-13 EP"@.len());
            reveal_strlit("PCL-FR-240");
            assert("PCL-FR-240"@.len() != "N4000-13 EP"@.len());
            reveal_strlit("PCL-FR-370");
            assert("PCL-FR-370"@.len() != "N4000-13 EP"@.len());
            reveal_strlit("PCL-FR-226");
            assert("PCL-FR-226"@.len() != "N4000-13 EP"@.len());
            reveal_strlit("N4000-29");
            assert("N4000-29"@.len() != "N4000-13 EP"@.len());
            reveal_strlit("Kappa 438");
            assert("Kappa 438"@.len() != "N4000-13 EP"@.len());
            reveal_strlit("FR-5");
            assert("FR-5"@.len() != "N4000-13 EP"@.len());
            reveal_strlit("Arlon 33N");
            assert("Arlon 33N"@.len() != "N4000-13 EP"@.len());
            reveal_strlit("Getek RG200D");
            assert("Getek RG200D"@.len() != "N4000-13 EP"@.len());
            reveal_strlit("Arlon 85N");
            assert("Arlon 85N"@.len() != "N4000-13 EP"@.len());
            reveal_strlit("Ventec VT-901");
            assert("Ventec VT-901"@.len() != "N4000-13 EP"@.len());
            reveal_strlit("Ventec VT-90H");
            assert("Ventec VT-90H"@.len() != "N4000-13 EP"@.len());
            reveal_strlit("N4000-7 EF");
            assert("N4000-7 EF"@.len() != "N4000-13 EP"@.len());
            reveal_strlit("N7000-1");
            assert("N7000-1"@.len() != "N4000-13 EP"@.len());
            reveal_strlit("Getek ML200D");
            assert("Getek ML200D"@.len() != "N4000-13 EP"@.len());
            reveal_strlit("Isola P26N");
            assert("Isola P26N"@.len() != "N4000-13 EP"@.len());
            reveal_strlit("FR408");
            assert("FR408"@.len() != "N4000-13 EP"@.len());
            reveal_strlit("Getek ML200C");
            assert("Getek ML200C"@.len() != "N4000-13 EP"@.len());
            reveal_strlit("Getek ML200M");
            assert("Getek ML200M"@.len() != "N4000-13 EP"@.len());
            reveal_strlit("Isola P95");
            assert("Isola P95"@.len() != "N4000-13 EP"@.len());
            reveal_strlit("Isola P96");
            assert("Isola P96"@.len() != "N4000-13 EP"@.len());
            reveal_strlit("N4000-13");
            assert("N4000-13"@.len() != "N4000-13 EP"@.len());
        }
    } else if i == 35 {
        assert(saturn_listing("N4000-13 EPSI"@) == Some((340nat, Some(210nat), 98nat))) by {
            reveal_strlit("N4000-13 EPSI");
            reveal_strlit("RO3010");
            assert("RO3010"@.len() != "N4000-13 EPSI"@.len());
            reveal_strlit("RT6010");
            assert("RT6010"@.len() != "N4000-13 EPSI"@.len());
            reveal_strlit("RO3006");
            assert("RO3006"@.len() != "N4000-13 EPSI"@.len());
            reveal_strlit("RT6006");
            assert("RT6006"@.len() != "N4000-13 EPSI"@.len());
            reveal_strlit("FR406");
            assert("FR406"@.len() != "N4000-13 EPSI"@.len());
            reveal_strlit("Ventec VT-47");
            assert("Ventec VT-47"@.len() != "N4000-13 EPSI"@.len());
            reveal_strlit("FR-4 STD");
            assert("FR-4 STD"@.len() != "N4000-13 EPSI"@.len());
            reveal_strlit("PCL-FR-370HR");
            assert("PCL-FR-370HR"@.len() != "N4000-13 EPSI"@.len());
            reveal_strlit("PCL-FR-240");
            assert("PCL-FR-240"@.len() != "N4000-13 EPSI"@.len());
            reveal_strlit("PCL-FR-370");
            assert("PCL-FR-370"@.len() != "N4000-13 EPSI"@.len());
            reveal_strlit("PCL-FR-226");
            assert("PCL-FR-226"@.len() != "N4000-13 EPSI"@.len());
            reveal_strlit("N4000-29");
            assert("N4000-29"@.len() != "N4000-13 EPSI"@.len());
            reveal_strlit("Kappa 438");
            assert("Kappa 438"@.len() != "N4000-13 EPSI"@.len());
            reveal_strlit("FR-5");
            assert("FR-5"@.len() != "N4000-13 EPSI"@.len());
            reveal_strlit("Arlon 33N");
            assert("Arlon 33N"@.len() != "N4000-13 EPSI"@.len());
            reveal_strlit("Getek RG200D");
            assert("Getek RG200D"@.len() != "N4000-13 EPSI"@.len());
            reveal_strlit("Arlon 85N");
            assert("Arlon 85N"@.len() != "N4000-13 EPSI"@.len());
            reveal_strlit("Ventec VT-901");
            assert("Ventec VT-901"@[0] != "N4000-13 EPSI"@[0]);
            reveal_strlit("Ventec VT-90H");
            assert("Ventec VT-90H"@[0] != "N4000-13 EPSI"@[0]);
            reveal_strlit("N4000-7 EF");
            assert("N4000-7 EF"@.len() != "N4000-13 EPSI"@.len());
            reveal_strlit("N7000-1");
            assert("N7000-1"@.len() != "N4000-13 EPSI"@.len());
            reveal_strlit("Getek ML200D");
            assert("Getek ML200D"@.len() != "N4000-13 EPSI"@.len());
            reveal_strlit("Isola P26N");
            assert("Isola P26N"@.len() != "N4000-13 EPSI"@.len());
            reveal_strlit("FR408");
            assert("FR408"@.len() != "N4000-13 EPSI"@.len());
            reveal_strlit("Getek ML200C");
            assert("Getek ML200C"@.len() != "N4000-13 EPSI"@.len());
            reveal_strlit("Getek ML200M");
            assert("Getek ML200M"@.len() != "N4000-13 EPSI"@.len());
            reveal_strlit("Isola P95");
            assert("Isola P95"@.len() != "N4000-13 EPSI"@.len());
            reveal_strlit("Isola P96");
            assert("Isola P96"@.len() != "N4000-13 EPSI"@.len());
            reveal_strlit("N4000-13");
            assert("N4000-13"@.len() != "N4000-13 EPSI"@.len());
            reveal_strlit("N4000-13 EP");
            assert("N4000-13 EP"@.len() != "N4000-13 EPSI"@.len());
            reveal_strlit("RO4350");
            assert("RO4350"@.len() != "N4000-13 EPSI"@.len());
            reveal_strlit("Megtron6");
            assert("Megtron6"@.len() != "N4000-13 EPSI"@.len());
            reveal_strlit("N4000-13SI");
            assert("N4000-13SI"@.len() != "N4000-13 EPSI"@.len());
        }
    } else if i == 36 {
        assert(saturn_listing("N4000-29"@) == Some((450nat, Some(185nat), 98nat))) by {
            reveal_strlit("N4000-29");
            reveal_strlit("RO3010");
            assert("RO3010"@.len() != "N4000-29"@.len());
            reveal_strlit("RT6010");
            assert("RT6010"@.len() != "N4000-29"@.len());
            reveal_strlit("RO3006");
            assert("RO3006"@.len() != "N4000-29"@.len());
            reveal_strlit("RT6006");
            assert("RT6006"@.len() != "N4000-29"@.len());
            reveal_strlit("FR406");
            assert("FR406"@.len() != "N4000-29"@.len());
            reveal_strlit("Ventec VT-47");
            assert("Ventec VT-47"@.len() != "N4000-29"@.len());
            reveal_strlit("FR-4 STD");
            assert("FR-4 STD"@[0] != "N4000-29"@[0]);
            reveal_strlit("PCL-FR-370HR");
            assert("PCL-FR-370HR"@.len() != "N4000-29"@.len());
            reveal_strlit("PCL-FR-240");
            assert("PCL-FR-240"@.len() != "N4000-29"@.len());
            reveal_strlit("PCL-FR-370");
            assert("PCL-FR-370"@.len() != "N4000-29"@.len());
            reveal_strlit("PCL-FR-226");
            assert("PCL-FR-226"@.len() != "N4000-29"@.len());
        }
    } else if i == 37 {
        assert(saturn_listing("N7000-1"@) == Some((390nat, Some(260nat), 100nat))) by {
            reveal_strlit("N7000-1");
            reveal_strlit("RO3010");
            assert("RO3010"@.len() != "N7000-1"@.len());
            reveal_strlit("RT6010");
            assert("RT6010"@.len() != "N7000-1"@.len());
            reveal_strlit("RO3006");
            assert("RO3006"@.len() != "N7000-1"@.len());
            reveal_strlit("RT6006");
            assert("RT6006"@.len() != "N7000-1"@.len());
            reveal_strlit("FR406");
            assert("FR406"@.len() != "N7000-1"@.len());
            reveal_strlit("Ventec VT-47");
            assert("Ventec VT-47"@.len() != "N7000-1"@.len());
            reveal_strlit("FR-4 STD");
            assert("FR-4 STD"@.len() != "N7000-1"@.len());
            reveal_strlit("PCL-FR-370HR");
            assert("PCL-FR-370HR"@.len() != "N7000-1"@.len());
            reveal_strlit("PCL-FR-240");
            assert("PCL-FR-240"@.len() != "N7000-1"@.len());
            reveal_strlit("PCL-FR-370");
            assert("PCL-FR-370"@.len() != "N7000-1"@.len());
            reveal_strlit("PCL-FR-226");
            assert("PCL-FR-226"@.len() != "N7000-1"@.len());
            reveal_strlit("N4000-29");
            assert("N4000-29"@.len() != "N7000-1"@.len());
            reveal_strlit("Kappa 438");
            assert("Kappa 438"@.len() != "N7000-1"@.len());
            reveal_strlit("FR-5");
            assert("FR-5"@.len() != "N7000-1"@.len());
            reveal_strlit("Arlon 33N");
            assert("Arlon 33N"@.len() != "N7000-1"@.len());
            reveal_strlit("Getek RG200D");
            assert("Getek RG200D"@.len() != "N7000-1"@.len());
            reveal_strlit("Arlon 85N");
            assert("Arlon 85N"@.len() != "N7000-1"@.len());
            reveal_strlit("Ventec VT-901");
            assert("Ventec VT-901"@.len() != "N7000-1"@.len());
            reveal_strlit("Ventec VT-90H");
            assert("Ventec VT-90H"@.len() != "N7000-1"@.len());
            reveal_strlit("N4000-7 EF");
            assert("N4000-7 EF"@.len() != "N7000-1"@.len());
        }
    } else if i == 38 {
        assert(saturn_listing("Ventec VT-47"@) == Some((460nat, Some(180nat), 98nat))) by {
            reveal_strlit("Ventec VT-47");
            reveal_strlit("RO3010");
            assert("RO3010"@.len() != "Ventec VT-47"@.len());
            reveal_strlit("RT6010");
            assert("RT6010"@.len() != "Ventec VT-47"@.len());
            reveal_strlit("RO3006");
            assert("RO3006"@.len() != "Ventec VT-47"@.len());
            reveal_strlit("RT6006");
            assert("RT6006"@.len() != "Ventec VT-47"@.len());
            reveal_strlit("FR406");
            assert("FR406"@.len() != "Ventec VT-47"@.len());
        }
    } else if i == 39 {
        assert(saturn_listing("Ventec VT-901"@) == Some((415nat, Some(250nat), 100nat))) by {
            reveal_strlit("Ventec VT-901");
            reveal_strlit("RO3010");
            assert("RO3010"@.len() != "Ventec VT-901"@.len());
            reveal_strlit("RT6010");
            assert("RT6010"@.len() != "Ventec VT-901"@.len());
            reveal_strlit("RO3006");
            assert("RO3006"@.len() != "Ventec VT-901"@.len());
            reveal_strlit("RT6006");
            assert("RT6006"@.len() != "Ventec VT-901"@.len());
            reveal_strlit("FR406");
            assert("FR406"@.len() != "Ventec VT-901"@.len());
            reveal_strlit("Ventec VT-47");
            assert("Ventec VT-47"@.len() != "Ventec VT-901"@.len());
            reveal_strlit("FR-4 STD");
            assert("FR-4 STD"@.len() != "Ventec VT-901"@.len());
            reveal_strlit("PCL-FR-370HR");
            assert("PCL-FR-370HR"@.len() != "Ventec VT-901"@.len());
            reveal_strlit("PCL-FR-240");
            assert("PCL-FR-240"@.len() != "Ventec VT-901"@.len());
            reveal_strlit("PCL-FR-370");
            assert("PCL-FR-370"@.len() != "Ventec VT-901"@.len());
            reveal_strlit("PCL-FR-226");
            assert("PCL-FR-226"@.len() != "Ventec VT-901"@.len());
            reveal_strlit("N4000-29");
            assert("N4000-29"@.len() != "Ventec VT-901"@.len());
            reveal_strlit("Kappa 438");
            assert("Kappa 438"@.len() != "Ventec VT-901"@.len());
            reveal_strlit("FR-5");
            assert("FR-5"@.len() != "Ventec VT-901"@.len());
            reveal_strlit("Arlon 33N");
            assert("Arlon 33N"@.len() != "Ventec VT-901"@.len());
            reveal_strlit("Getek RG200D");
            assert("Getek RG200D"@.len() != "Ventec VT-901"@.len());
            reveal_strlit("Arlon 85N");
            assert("Arlon 85N"@.len() != "Ventec VT-901"@.len());
        }
    } else if i == 40 {
        assert(saturn_listing("Ventec VT-90H"@) == Some((415nat, Some(250nat), 100nat))) by {
            reveal_strlit("Ventec VT-90H");
            reveal_strlit("RO3010");
            assert("RO3010"@.len() != "Ventec VT-90H"@.len());
            reveal_strlit("RT6010");
            assert("RT6010"@.len() != "Ventec VT-90H"@.len());
            reveal_strlit("RO3006");
            assert("RO3006"@.len() != "Ventec VT-90H"@.len());
            reveal_strlit("RT6006");
            assert("RT6006"@.len() != "Ventec VT-90H"@.len());
            reveal_strlit("FR406");
            assert("FR406"@.len() != "Ventec VT-90H"@.len());
            reveal_strlit("Ventec VT-47");
            assert("Ventec VT-47"@.len() != "Ventec VT-90H"@.len());
            reveal_strlit("FR-4 STD");
            assert("FR-4 STD"@.len() != "Ventec VT-90H"@.len());
            reveal_strlit("PCL-FR-370HR");
            assert("PCL-FR-370HR"@.len() != "Ventec VT-90H"@.len());
            reveal_strlit("PCL-FR-240");
            assert("PCL-FR-240"@.len() != "Ventec VT-90H"@.len());
            reveal_strlit("PCL-FR-370");
            assert("PCL-FR-370"@.len() != "Ventec VT-90H"@.len());
            reveal_strlit("PCL-FR-226");
            assert("PCL-FR-226"@.len() != "Ventec VT-90H"@.len());
            reveal_strlit("N4000-29");
            assert("N4000-29"@.len() != "Ventec VT-90H"@.len());
            reveal_strlit("Kappa 438");
            assert("Kappa 438"@.len() != "Ventec VT-90H"@.len());
            reveal_strlit("FR-5");
            assert("FR-5"@.len() != "Ventec VT-90H"@.len());
            reveal_strlit("Arlon 33N");
            assert("Arlon 33N"@.len() != "Ventec VT-90H"@.len());
            reveal_strlit("Getek RG200D");
            assert("Getek RG200D"@.len() != "Ventec VT-90H"@.len());
            reveal_strlit("Arlon 85N");
            assert("Arlon 85N"@.len() != "Ventec VT-90H"@.len());
            reveal_strlit("Ventec VT-901");
            assert("Ventec VT-901"@[12] != "Ventec VT-90H"@[12]);
        }
    } else if i == 41 {
        assert(saturn_listing("Megtron6"@) == Some((340nat, Some(185nat), 100nat))) by {
            reveal_strlit("Megtron6");
            reveal_strlit("RO3010");
            assert("RO3010"@.len() != "Megtron6"@.len());
            reveal_strlit("RT6010");
            assert("RT6010"@.len() != "Megtron6"@.len());
            reveal_strlit("RO3006");
            assert("RO3006"@.len() != "Megtron6"@.len());
            reveal_strlit("RT6006");
            assert("RT6006"@.len() != "Megtron6"@.len());
            reveal_strlit("FR406");
            assert("FR406"@.len() != "Megtron6"@.len());
            reveal_strlit("Ventec VT-47");
            assert("Ventec VT-47"@.len() != "Megtron6"@.len());
            reveal_strlit("FR-4 STD");
            assert("FR-4 STD"@[0] != "Megtron6"@[0]);
            reveal_strlit("PCL-FR-370HR");
            assert("PCL-FR-370HR"@.len() != "Megtron6"@.len());
            reveal_strlit("PCL-FR-240");
            assert("PCL-FR-240"@.len() != "Megtron6"@.len());
            reveal_strlit("PCL-FR-370");
            assert("PCL-FR-370"@.len() != "Megtron6"@.len());
            reveal_strlit("PCL-FR-226");
            assert("PCL-FR-226"@.len() != "Megtron6"@.len());
            reveal_strlit("N4000-29");
            assert("N4000-29"@[0] != "Megtron6"@[0]);
            reveal_strlit("Kappa 438");
            assert("Kappa 438"@.len() != "Megtron6"@.len());
            reveal_strlit("FR-5");
            assert("FR-5"@.len() != "Megtron6"@.len());
            reveal_strlit("Arlon 33N");
            assert("Arlon 33N"@.len() != "Megtron6"@.len());
            reveal_strlit("Getek RG200D");
            assert("Getek RG200D"@.len() != "Megtron6"@.len());
            reveal_strlit("Arlon 85N");
            assert("Arlon 85N"@.len() != "Megtron6"@.len());
            reveal_strlit("Ventec VT-901");
            assert("Ventec VT-901"@.len() != "Megtron6"@.len());
            reveal_strlit("Ventec VT-90H");
            assert("Ventec VT-90H"@.len() != "Megtron6"@.len());
            reveal_strlit("N4000-7 EF");
            assert("N4000-7 EF"@.len() != "Megtron6"@.len());
            reveal_strlit("N7000-1");
            assert("N7000-1"@.len() != "Megtron6"@.len());
            reveal_strlit("Getek ML200D");
            assert("Getek ML200D"@.len() != "Megtron6"@.len());
            reveal_strlit("Isola P26N");
            assert("Isola P26N"@.len() != "Megtron6"@.len());
            reveal_strlit("FR408");
            assert("FR408"@.len() != "Megtron6"@.len());
            reveal_strlit("Getek ML200C");
            assert("Getek ML200C"@.len() != "Megtron6"@.len());
            reveal_strlit("Getek ML200M");
            assert("Getek ML200M"@.len() != "Megtron6"@.len());
            reveal_strlit("Isola P95");
            assert("Isola P95"@.len() != "Megtron6"@.len());
            reveal_strlit("Isola P96");
            assert("Isola P96"@.len() != "Megtron6"@.len());
            reveal_strlit("N4000-13");
            assert("N4000-13"@[0] != "Megtron6"@[0]);
            reveal_strlit("N4000-13 EP");
            assert("N4000-13 EP"@.len() != "Megtron6"@.len());
            reveal_strlit("RO4350");
            assert("RO4350"@.len() != "Megtron6"@.len());
        }
    } else if i == 42 {
        assert(saturn_listing("Kappa 438"@) == Some((438nat, Some(280nat), 100nat))) by {
            reveal_strlit("Kappa 438");
            reveal_strlit("RO3010");
            assert("RO3010"@.len() != "Kappa 438"@.len());
            reveal_strlit("RT6010");
            assert("RT6010"@.len() != "Kappa 438"@.len());
            reveal_strlit("RO3006");
            assert("RO3006"@.len() != "Kappa 438"@.len());
            reveal_strlit("RT6006");
            assert("RT6006"@.len() != "Kappa 438"@.len());
            reveal_strlit("FR406");
            assert("FR406"@.len() != "Kappa 438"@.len());
            reveal_strlit("Ventec VT-47");
            assert("Ventec VT-47"@.len() != "Kappa 438"@.len());
            reveal_strlit("FR-4 STD");
            assert("FR-4 STD"@.len() != "Kappa 438"@.len());
            reveal_strlit("PCL-FR-370HR");
            assert("PCL-FR-370HR"@.len() != "Kappa 438"@.len());
            reveal_strlit("PCL-FR-240");
            assert("PCL-FR-240"@.len() != "Kappa 438"@.len());
            reveal_strlit("PCL-FR-370");
            assert("PCL-FR-370"@.len() != "Kappa 438"@.len());
            reveal_strlit("PCL-FR-226");
            assert("PCL-FR-226"@.len() != "Kappa 438"@.len());
            reveal_strlit("N4000-29");
            assert("N4000-29"@.len() != "Kappa 438"@.len());
        }
    } else if i == 43 {
        assert(saturn_listing("Kapton"@) == Some((340nat, Some(400nat), 100nat))) by {
            reveal_strlit("Kapton");
            reveal_strlit("RO3010");
            assert("RO3010"@[0] != "Kapton"@[0]);
            reveal_strlit("RT6010");
            assert("RT6010"@[0] != "Kapton"@[0]);
            reveal_strlit("RO3006");
            assert("RO3006"@[0] != "Kapton"@[0]);
            reveal_strlit("RT6006");
            assert("RT6006"@[0] != "Kapton"@[0]);
            reveal_strlit("FR406");
            assert("FR406"@.len() != "Kapton"@.len());
            reveal_strlit("Ventec VT-47");
            assert("Ventec VT-47"@.len() != "Kapton"@.len());
            reveal_strlit("FR-4 STD");
            assert("FR-4 STD"@.len() != "Kapton"@.len());
            reveal_strlit("PCL-FR-370HR");
            assert("PCL-FR-370HR"@.len() != "Kapton"@.len());
            reveal_strlit("PCL-FR-240");
            assert("PCL-FR-240"@.len() != "Kapton"@.len());
            reveal_strlit("PCL-FR-370");
            assert("PCL-FR-370"@.len() != "Kapton"@.len());
            reveal_strlit("PCL-FR-226");
            assert("PCL-FR-226"@.len() != "Kapton"@.len());
            reveal_strlit("N4000-29");
            assert("N4000-29"@.len() != "Kapton"@.len());
            reveal_strlit("Kappa 438");
            assert("Kappa 438"@.len() != "Kapton"@.len());
            reveal_strlit("FR-5");
            assert("FR-5"@.len() != "Kapton"@.len());
            reveal_strlit("Arlon 33N");
            assert("Arlon 33N"@.len() != "Kapton"@.len());
            reveal_strlit("Getek RG200D");
            assert("Getek RG200D"@.len() != "Kapton"@.len());
            reveal_strlit("Arlon 85N");
            assert("Arlon 85N"@.len() != "Kapton"@.len());
            reveal_strlit("Ventec VT-901");
            assert("Ventec VT-901"@.len() != "Kapton"@.len());
            reveal_strlit("Ventec VT-90H");
            assert("Ventec VT-90H"@.len() != "Kapton"@.len());
            reveal_strlit("N4000-7 EF");
            assert("N4000-7 EF"@.len() != "Kapton"@.len());
            reveal_strlit("N7000-1");
            assert("N7000-1"@.len() != "Kapton"@.len());
            reveal_strlit("Getek ML200D");
            assert("Getek ML200D"@.len() != "Kapton"@.len());
            reveal_strlit("Isola P26N");
            assert("Isola P26N"@.len() != "Kapton"@.len());
            reveal_strlit("FR408");
            assert("FR408"@.len() != "Kapton"@.len());
            reveal_strlit("Getek ML200C");
            assert("Getek ML200C"@.len() != "Kapton"@.len());
            reveal_strlit("Getek ML200M");
            assert("Getek ML200M"@.len() != "Kapton"@.len());
            reveal_strlit("Isola P95");
            assert("Isola P95"@.len() != "Kapton"@.len());
            reveal_strlit("Isola P96");
            assert("Isola P96"@.len() != "Kapton"@.len());
            reveal_strlit("N4000-13");
            assert("N4000-13"@.len() != "Kapton"@.len());
            reveal_strlit("N4000-13 EP");
            assert("N4000-13 EP"@.len() != "Kapton"@.len());
            reveal_strlit("RO4350");
            assert("RO4350"@[0] != "Kapton"@[0]);
            reveal_strlit("Megtron6");
            assert("Megtron6"@.len() != "Kapton"@.len());
            reveal_strlit("N4000-13SI");
            assert("N4000-13SI"@.len() != "Kapton"@.len());
            reveal_strlit("N4000-13 EPSI");
            assert("N4000-13 EPSI"@.len() != "Kapton"@.len());
        }
    } else if i == 44 {
        assert(saturn_listing("Air"@) == Some((100nat, None::<nat>, 100nat))) by {
            reveal_strlit("Air");
            reveal_strlit("RO3010");
            assert("RO3010"@.len() != "Air"@.len());
            reveal_strlit("RT6010");
            assert("RT6010"@.len() != "Air"@.len());
            reveal_strlit("RO3006");
            assert("RO3006"@.len() != "Air"@.len());
            reveal_strlit("RT6006");
            assert("RT6006"@.len() != "Air"@.len());
            reveal_strlit("FR406");
            assert("FR406"@.len() != "Air"@.len());
            reveal_strlit("Ventec VT-47");
            assert("Ventec VT-47"@.len() != "Air"@.len());
            reveal_strlit("FR-4 STD");
            assert("FR-4 STD"@.len() != "Air"@.len());
            reveal_strlit("PCL-FR-370HR");
            assert("PCL-FR-370HR"@.len() != "Air"@.len());
            reveal_strlit("PCL-FR-240");
            assert("PCL-FR-240"@.len() != "Air"@.len());
            reveal_strlit("PCL-FR-370");
            assert("PCL-FR-370"@.len() != "Air"@.len());
            reveal_strlit("PCL-FR-226");
            assert("PCL-FR-226"@.len() != "Air"@.len());
            reveal_strlit("N4000-29");
            assert("N4000-29"@.len() != "Air"@.len());
            reveal_strlit("Kappa 438");
            assert("Kappa 438"@.len() != "Air"@.len());
            reveal_strlit("FR-5");
            assert("FR-5"@.len() != "Air"@.len());
            reveal_strlit("Arlon 33N");
            assert("Arlon 33N"@.len() != "Air"@.len());
            reveal_strlit("Getek RG200D");
            assert("Getek RG200D"@.len() != "Air"@.len());
            reveal_strlit("Arlon 85N");
            assert("Arlon 85N"@.len() != "Air"@.len());
            reveal_strlit("Ventec VT-901");
            assert("Ventec VT-901"@.len() != "Air"@.len());
            reveal_strlit("Ventec VT-90H");
            assert("Ventec VT-90H"@.len() != "Air"@.len());
            reveal_strlit("N4000-7 EF");
            assert("N4000-7 EF"@.len() != "Air"@.len());
            reveal_strlit("N7000-1");
            assert("N7000-1"@.len() != "Air"@.len());
            reveal_strlit("Getek ML200D");
            assert("Getek ML200D"@.len() != "Air"@.len());
            reveal_strlit("Isola P26N");
            assert("Isola P26N"@.len() != "Air"@.len());
            reveal_strlit("FR408");
            assert("FR408"@.len() != "Air"@.len());
            reveal_strlit("Getek ML200C");
            assert("Getek ML200C"@.len() != "Air"@.len());
            reveal_strlit("Getek ML200M");
            assert("Getek ML200M"@.len() != "Air"@.len());
            reveal_strlit("Isola P95");
            assert("Isola P95"@.len() != "Air"@.len());
            reveal_strlit("Isola P96");
            assert("Isola P96"@.len() != "Air"@.len());
            reveal_strlit("N4000-13");
            assert("N4000-13"@.len() != "Air"@.len());
            reveal_strlit("N4000-13 EP");
            assert("N4000-13 EP"@.len() != "Air"@.len());
            reveal_strlit("RO4350");
            assert("RO4350"@.len() != "Air"@.len());
            reveal_strlit("Megtron6");
            assert("Megtron6"@.len() != "Air"@.len());
            reveal_strlit("N4000-13SI");
            assert("N4000-13SI"@.len() != "Air"@.len());
            reveal_strlit("N4000-13 EPSI");
            assert("N4000-13 EPSI"@.len() != "Air"@.len());
            reveal_strlit("Kapton");
            assert("Kapton"@.len() != "Air"@.len());
            reveal_strlit("RO4003");
            assert("RO4003"@.len() != "Air"@.len());
            reveal_strlit("Arlon 25N");
            assert("Arlon 25N"@.len() != "Air"@.len());
            reveal_strlit("RO3003");
            assert("RO3003"@.len() != "Air"@.len());
            reveal_strlit("RO2800");
            assert("RO2800"@.len() != "Air"@.len());
            reveal_strlit("RT6002");
            assert("RT6002"@.len() != "Air"@.len());
            reveal_strlit("RT5500");
            assert("RT5500"@.len() != "Air"@.len());
            reveal_strlit("RT5870");
            assert("RT5870"@.len() != "Air"@.len());
            reveal_strlit("RT5880");
            assert("RT5880"@.len() != "Air"@.len());
            reveal_strlit("Teflon PTFE");
            assert("Teflon PTFE"@.len() != "Air"@.len());
        }
    }
}

/// At most one position is the first one holding a name, so a lookup has
/// one possible result.
pub proof fn lemma_first_named_unique(name: Seq<char>, i: int, j: int)
    requires
        first_named(name, i),
        first_named(name, j),
    ensures
        i == j,
{
    if i < j {
        assert(eq_ignore_ascii_case(material_at(i).name@, name));
    } else if j < i {
        assert(eq_ignore_ascii_case(material_at(j).name@, name));
    }
}

/// Lookup is case-insensitive: two names equal up to ASCII case select the
/// same preset, or none for both.
pub proof fn lemma_lookup_ignores_case(a: Seq<char>, b: Seq<char>)
    requires
        eq_ignore_ascii_case(a, b),
    ensures
        forall|i: int| first_named(a, i) <==> first_named(b, i),
        (forall|k: int|
            0 <= k < MATERIAL_COUNT ==> !eq_ignore_ascii_case(#[trigger] material_at(k).name@, a))
            <==> (forall|k: int|
            0 <= k < MATERIAL_COUNT ==> !eq_ignore_ascii_case(#[trigger] material_at(k).name@, b)),
{
    assert forall|x: Seq<char>| eq_ignore_ascii_case(x, a) <==> eq_ignore_ascii_case(x, b) by {
        lemma_eq_ignore_ascii_case_equivalence(x, a, b);
        lemma_eq_ignore_ascii_case_equivalence(x, b, a);
        lemma_eq_ignore_ascii_case_equivalence(a, b, b);
    }
}

} // verus!
