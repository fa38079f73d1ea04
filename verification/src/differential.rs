//! Differential pair protocol presets.

use vstd::prelude::*;

verus! {

/// Differential pair protocol presets with target Zdiff.
///
/// These are the nominal targets Saturn PCB Toolkit lists. Real
/// specifications state tolerances and, for some protocols, platform-specific
/// targets (e.g. 85 Ω vs 100 Ω PCIe implementations).
#[derive(Debug, Clone, Copy, PartialEq, Eq, Structural)]
pub enum DiffProtocol {
    Ddr2ClkDqs,
    Ddr3ClkDqs,
    Ddr4ClkDqs,
    Usb2x,
    Usb3x,
    Lvds,
    Hdmi,
    Sata,
    Ethernet,
    DisplayPort,
    DisplayPortEaglelake,
    DisplayPortCalpella,
    PcieGen1,
    PcieGen2,
    PcieGen3,
    PcieGen4,
    SsrxSstx,
    Custom,
}

/// Nominal target differential impedance (whole ohms) of a protocol; a
/// custom pair has none.
pub open spec fn target_zdiff_of(p: DiffProtocol) -> Option<nat> {
    match p {
        DiffProtocol::Ddr2ClkDqs | DiffProtocol::Ddr3ClkDqs => Some(100),
        DiffProtocol::Ddr4ClkDqs => Some(80),
        DiffProtocol::Usb2x | DiffProtocol::Usb3x => Some(90),
        DiffProtocol::Lvds | DiffProtocol::Hdmi | DiffProtocol::Sata | DiffProtocol::Ethernet => Some(100),
        DiffProtocol::DisplayPort => Some(100),
        DiffProtocol::DisplayPortEaglelake | DiffProtocol::DisplayPortCalpella => Some(85),
        DiffProtocol::PcieGen1 => Some(100),
        DiffProtocol::PcieGen2 | DiffProtocol::PcieGen3 | DiffProtocol::PcieGen4 => Some(85),
        DiffProtocol::SsrxSstx => Some(85),
        DiffProtocol::Custom => None,
    }
}

impl DiffProtocol {
    /// Nominal target differential impedance in ohms, as listed by Saturn
    /// PCB Toolkit; `None` for a custom pair.
    pub fn target_zdiff_ohms(self) -> (z: Option<u32>)
        ensures
            z matches Some(v) ==> target_zdiff_of(self) == Some(v as nat),
            z is None <==> target_zdiff_of(self) is None,
    {
        match self {
            DiffProtocol::Ddr2ClkDqs | DiffProtocol::Ddr3ClkDqs => Some(100),
            DiffProtocol::Ddr4ClkDqs => Some(80),
            DiffProtocol::Usb2x => Some(90),
            DiffProtocol::Usb3x => Some(90),
            DiffProtocol::Lvds | DiffProtocol::Hdmi | DiffProtocol::Sata | DiffProtocol::Ethernet => Some(100),
            DiffProtocol::DisplayPort => Some(100),
            DiffProtocol::DisplayPortEaglelake | DiffProtocol::DisplayPortCalpella => Some(85),
            DiffProtocol::PcieGen1 => Some(100),
            DiffProtocol::PcieGen2 | DiffProtocol::PcieGen3 | DiffProtocol::PcieGen4 => Some(85),
            DiffProtocol::SsrxSstx => Some(85),
            DiffProtocol::Custom => None,
        }
    }
}

/// Saturn's protocol list read by impedance: the protocols whose nominal
/// target is `z` ohms.
pub open spec fn listed_with_target(z: nat) -> Set<DiffProtocol> {
    if z == 80 {
        set![DiffProtocol::Ddr4ClkDqs]
    } else if z == 85 {
        set![
            DiffProtocol::DisplayPortEaglelake,
            DiffProtocol::DisplayPortCalpella,
            DiffProtocol::PcieGen2,
            DiffProtocol::PcieGen3,
            DiffProtocol::PcieGen4,
            DiffProtocol::SsrxSstx,
        ]
    } else if z == 90 {
        set![DiffProtocol::Usb2x, DiffProtocol::Usb3x]
    } else if z == 100 {
        set![
            DiffProtocol::Ddr2ClkDqs,
            DiffProtocol::Ddr3ClkDqs,
            DiffProtocol::Lvds,
            DiffProtocol::Hdmi,
            DiffProtocol::Sata,
            DiffProtocol::Ethernet,
            DiffProtocol::DisplayPort,
            DiffProtocol::PcieGen1,
        ]
    } else {
        Set::empty()
    }
}

/// A protocol has target `z` exactly when the list by impedance puts it
/// under `z`; a custom pair is listed under none.
pub proof fn lemma_targets_match_listing(p: DiffProtocol, z: nat)
    ensures
        target_zdiff_of(p) == Some(z) <==> listed_with_target(z).contains(p),
{
}

} // verus!
