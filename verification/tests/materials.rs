use pcb_toolkit::materials::{lookup, materials, MaterialSource, MATERIAL_COUNT};

#[test]
fn material_count() {
    assert_eq!(materials().len(), 45);
    assert_eq!(MATERIAL_COUNT, 45);
}

#[test]
fn lookup_fr4() {
    let m = lookup("FR-4 STD").unwrap();
    assert!((m.er_centi as f64 / 100.0 - 4.6).abs() < 1e-10);
    assert_eq!(m.tg_celsius, Some(130));
    assert!((m.roughness_centi as f64 / 100.0 - 0.98).abs() < 1e-10);
}

#[test]
fn lookup_ro4350() {
    let m = lookup("RO4350").unwrap();
    assert!((m.er_centi as f64 / 100.0 - 3.66).abs() < 1e-10);
    assert_eq!(m.tg_celsius, Some(280));
    assert!((m.roughness_centi as f64 / 100.0 - 1.0).abs() < 1e-10);
}

#[test]
fn lookup_kapton() {
    let m = lookup("Kapton").unwrap();
    assert!((m.er_centi as f64 / 100.0 - 3.40).abs() < 1e-10);
    assert_eq!(m.tg_celsius, Some(400));
}

#[test]
fn lookup_air() {
    let m = lookup("Air").unwrap();
    assert!((m.er_centi as f64 / 100.0 - 1.0).abs() < 1e-10);
    assert_eq!(m.tg_celsius, None);
}

#[test]
fn lookup_case_insensitive() {
    assert!(lookup("fr-4 std").is_some());
    assert!(lookup("AIR").is_some());
    assert!(lookup("megtron6").is_some());
}

#[test]
fn lookup_unknown() {
    assert!(lookup("unobtanium").is_none());
}

#[test]
fn every_preset_is_physical_and_sourced() {
    for m in materials() {
        assert!(m.er_centi >= 100, "{}", m.name);
        assert!(
            m.roughness_centi > 0 && m.roughness_centi <= 100,
            "{}",
            m.name
        );
        assert_eq!(m.source, MaterialSource::SaturnV844);
    }
    assert!(lookup("RO4003").unwrap().note.is_some());
    assert!(lookup("RO4350").unwrap().note.is_some());
}

#[test]
fn every_preset_is_found_under_its_own_name() {
    for m in materials() {
        assert_eq!(lookup(m.name), Some(m));
        assert_eq!(lookup(&m.name.to_uppercase()), Some(m));
    }
    assert!(lookup("FR-4 STD ").is_none());
    assert!(lookup("").is_none());
}
