use pcb_toolkit::copper::{CopperWeight, PlatingThickness, UnknownCopperWeight};

#[test]
fn parse_copper_weight() {
    assert_eq!(CopperWeight::from_str_oz("1oz").unwrap(), CopperWeight::Oz1);
    assert_eq!(
        CopperWeight::from_str_oz("0.5oz").unwrap(),
        CopperWeight::Oz05
    );
    assert_eq!(
        CopperWeight::from_str_oz("2.5").unwrap(),
        CopperWeight::Oz25
    );
}

#[test]
fn copper_weight_text_forms() {
    assert_eq!(CopperWeight::from_str_oz("  1.5 OZ ").unwrap(), CopperWeight::Oz15);
    assert_eq!(CopperWeight::from_str_oz("0.25oz").unwrap(), CopperWeight::Oz025);
    assert_eq!(CopperWeight::from_str_oz("5ozoz").unwrap(), CopperWeight::Oz5);
    assert_eq!(CopperWeight::from_str_oz("4Oz").unwrap(), CopperWeight::Oz4);
    assert_eq!(CopperWeight::from_str_oz("3").unwrap(), CopperWeight::Oz3);
    assert_eq!(CopperWeight::from_str_oz("2").unwrap(), CopperWeight::Oz2);
}

#[test]
fn unknown_copper_weight_keeps_the_input() {
    assert_eq!(
        CopperWeight::from_str_oz("7oz"),
        Err(UnknownCopperWeight("7oz".to_string()))
    );
    assert_eq!(
        CopperWeight::from_str_oz(" 1.0 "),
        Err(UnknownCopperWeight(" 1.0 ".to_string()))
    );
    assert!(CopperWeight::from_str_oz("").is_err());
    assert!(CopperWeight::from_str_oz("oz").is_err());
    assert!(CopperWeight::from_str_oz("o z1").is_err());
}

#[test]
fn copper_thickness_is_one_point_four_mil_per_ounce() {
    assert_eq!(CopperWeight::Oz025.thickness_centimils(), 35);
    assert_eq!(CopperWeight::Oz05.thickness_centimils(), 70);
    assert_eq!(CopperWeight::Oz1.thickness_centimils(), 140);
    assert_eq!(CopperWeight::Oz15.thickness_centimils(), 210);
    assert_eq!(CopperWeight::Oz2.thickness_centimils(), 280);
    assert_eq!(CopperWeight::Oz25.thickness_centimils(), 350);
    assert_eq!(CopperWeight::Oz3.thickness_centimils(), 420);
    assert_eq!(CopperWeight::Oz4.thickness_centimils(), 560);
    assert_eq!(CopperWeight::Oz5.thickness_centimils(), 700);
    assert_eq!(CopperWeight::Oz1.thickness_centimils() as f64 / 100.0, 1.40);
}

#[test]
fn plating_thicknesses() {
    assert_eq!(PlatingThickness::Bare.thickness_centimils(), 0);
    assert_eq!(PlatingThickness::Oz05.thickness_centimils(), 70);
    assert_eq!(PlatingThickness::Oz1.thickness_centimils(), 140);
    assert_eq!(PlatingThickness::Oz15.thickness_centimils(), 210);
    assert_eq!(PlatingThickness::Oz2.thickness_centimils(), 280);
    assert_eq!(PlatingThickness::Oz25.thickness_centimils(), 350);
    assert_eq!(PlatingThickness::Oz3.thickness_centimils(), 420);
}
