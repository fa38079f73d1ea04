use pcb_toolkit::cli_args::{
    parse_awg, parse_current_etch, parse_device_type, parse_etch, parse_plating, parse_shape,
    WireGaugeArgs,
};
use pcb_toolkit::copper::{EtchFactor, PlatingThickness};
use pcb_toolkit::inductor::SpiralShape;
use pcb_toolkit::spacing::DeviceType;
use pcb_toolkit::wire_gauge::Awg;

#[test]
fn plating_texts() {
    assert_eq!(parse_plating("bare"), Some(PlatingThickness::Bare));
    assert_eq!(parse_plating("0"), Some(PlatingThickness::Bare));
    assert_eq!(parse_plating("0.5oz"), Some(PlatingThickness::Oz05));
    assert_eq!(parse_plating("1OZ"), Some(PlatingThickness::Oz1));
    assert_eq!(parse_plating("1.5 oz"), Some(PlatingThickness::Oz15));
    assert_eq!(parse_plating("3"), Some(PlatingThickness::Oz3));
    assert_eq!(parse_plating("4oz"), None);
    assert_eq!(parse_plating("oz"), None);
}

#[test]
fn etch_texts() {
    assert_eq!(parse_etch("none"), Some(EtchFactor::NoEtch));
    assert_eq!(parse_etch("0"), Some(EtchFactor::NoEtch));
    assert_eq!(parse_etch("1:1"), Some(EtchFactor::OneToOne));
    assert_eq!(parse_etch("1TO1"), Some(EtchFactor::OneToOne));
    assert_eq!(parse_etch("2:1"), Some(EtchFactor::TwoToOne));
    assert_eq!(parse_etch("TwoToOne"), Some(EtchFactor::TwoToOne));
    assert_eq!(parse_etch("3:1"), None);
    assert_eq!(parse_etch(" none"), None);
}

#[test]
fn shape_texts() {
    assert_eq!(parse_shape("square"), Some(SpiralShape::Square));
    assert_eq!(parse_shape("Hexagonal"), Some(SpiralShape::Hexagonal));
    assert_eq!(parse_shape("OCTAGONAL"), Some(SpiralShape::Octagonal));
    assert_eq!(parse_shape("circle"), Some(SpiralShape::Circle));
    assert_eq!(parse_shape("circular"), Some(SpiralShape::Circle));
    assert_eq!(parse_shape("triangle"), None);
}

#[test]
fn device_type_texts() {
    assert_eq!(parse_device_type("b1"), Some(DeviceType::B1));
    assert_eq!(parse_device_type("B4"), Some(DeviceType::B4));
    assert_eq!(parse_device_type("a8"), Some(DeviceType::A8));
    assert_eq!(parse_device_type("a1"), None);
    assert_eq!(parse_device_type("b9"), None);
}

#[test]
fn awg_texts() {
    assert_eq!(parse_awg("4/0"), Some(Awg::Awg4_0));
    assert_eq!(parse_awg("0000"), Some(Awg::Awg4_0));
    assert_eq!(parse_awg("AWG 22"), Some(Awg::Awg22));
    assert_eq!(parse_awg("awgawg10"), Some(Awg::Awg10));
    assert_eq!(parse_awg("0"), Some(Awg::Awg1_0));
    assert_eq!(parse_awg("1"), Some(Awg::Awg1));
    assert_eq!(parse_awg("40"), Some(Awg::Awg40));
    assert_eq!(parse_awg("41"), None);
    assert_eq!(parse_awg(" 22"), Some(Awg::Awg22));
    assert_eq!(parse_awg(" awg22"), None);
}

#[test]
fn current_etch_texts_are_exact() {
    assert_eq!(parse_current_etch("none"), Some(EtchFactor::NoEtch));
    assert_eq!(parse_current_etch("1:1"), Some(EtchFactor::OneToOne));
    assert_eq!(parse_current_etch("2:1"), Some(EtchFactor::TwoToOne));
    assert_eq!(parse_current_etch("None"), None);
    assert_eq!(parse_current_etch("2to1"), None);
}

#[test]
fn wire_gauge_args_name_their_gauge() {
    let args = WireGaugeArgs { awg: String::from("AWG 4/0") };
    assert_eq!(args.gauge(), Some(Awg::Awg4_0));
    let args = WireGaugeArgs { awg: String::from("41") };
    assert_eq!(args.gauge(), None);
}
