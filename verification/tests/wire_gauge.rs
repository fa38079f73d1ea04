use pcb_toolkit::wire_gauge::{Awg, AWG_COUNT};

#[test]
fn all_has_44_entries() {
    assert_eq!(Awg::all().len(), 44);
    assert_eq!(AWG_COUNT, 44);
}

#[test]
fn from_index_boundary() {
    assert_eq!(Awg::from_index(0), Some(Awg::Awg4_0));
    assert_eq!(Awg::from_index(43), Some(Awg::Awg40));
    assert_eq!(Awg::from_index(44), None);
}

#[test]
fn index_and_from_index_round_trip() {
    for (i, a) in Awg::all().into_iter().enumerate() {
        assert_eq!(a.index(), i);
        assert_eq!(Awg::from_index(i), Some(a));
    }
}

#[test]
fn table_values() {
    assert_eq!(Awg::Awg4_0.label(), "4/0");
    assert_eq!(Awg::Awg4_0.diameter_tenth_mils(), 4600);
    assert_eq!(Awg::Awg4_0.resistance_milliohm_per_kft(), 50);
    assert_eq!(Awg::Awg22.label(), "22");
    assert_eq!(Awg::Awg22.diameter_tenth_mils() as f64 / 10000.0, 0.0254);
    assert_eq!(Awg::Awg22.resistance_milliohm_per_kft() as f64 / 1000.0, 16.140);
    assert_eq!(Awg::Awg40.label(), "40");
    assert_eq!(Awg::Awg40.diameter_tenth_mils(), 31);
    assert_eq!(Awg::Awg40.resistance_milliohm_per_kft(), 1_049_000);
}

#[test]
fn higher_gauges_are_thinner() {
    let all = Awg::all();
    for w in all.windows(2) {
        assert!(w[0].diameter_tenth_mils() > w[1].diameter_tenth_mils());
        assert!(w[0].resistance_milliohm_per_kft() < w[1].resistance_milliohm_per_kft());
    }
}
