use pcb_toolkit::constants::COPPER_MELTING_POINT_CENTI_C;
use pcb_toolkit::differential::DiffProtocol;
use pcb_toolkit::fusing::COPPER_MELTING_TEMP_CENTI_C;

#[test]
fn shared_copper_melting_constant_is_correct() {
    let melting = COPPER_MELTING_POINT_CENTI_C as f64 / 100.0;
    assert!((melting - 1084.62).abs() <= 0.01, "actual={melting:?}");
    let fusing = COPPER_MELTING_TEMP_CENTI_C as f64 / 100.0;
    assert!((fusing - melting).abs() <= 0.0, "actual={fusing:?}, expected={melting:?}");
}

#[test]
fn protocol_targets() {
    assert_eq!(DiffProtocol::Ddr4ClkDqs.target_zdiff_ohms(), Some(80));
    assert_eq!(DiffProtocol::Usb2x.target_zdiff_ohms(), Some(90));
    assert_eq!(DiffProtocol::PcieGen1.target_zdiff_ohms(), Some(100));
    assert_eq!(DiffProtocol::PcieGen3.target_zdiff_ohms(), Some(85));
    assert_eq!(DiffProtocol::Custom.target_zdiff_ohms(), None);
}
