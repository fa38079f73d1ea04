use pcb_toolkit::spacing::{column_max_volts, device_index, voltage_column, DeviceType, COLUMN_COUNT};

#[test]
fn table_is_monotonic_in_voltage() {
    for d in DeviceType::ALL {
        for col in 0..COLUMN_COUNT - 1 {
            assert!(d.spacing_um(col + 1) >= d.spacing_um(col));
        }
    }
}

#[test]
fn published_cells() {
    assert_eq!(DeviceType::B1.spacing_um(0), 50);
    assert_eq!(DeviceType::B3.spacing_um(2), 640);
    assert_eq!(DeviceType::B4.spacing_um(0), 75);
    assert_eq!(DeviceType::B3.spacing_um(8), 12500);
    assert_eq!(DeviceType::A8.spacing_um(8), 3000);
    assert_eq!(DeviceType::B1.spacing_um(0) as f64 / 1000.0, 0.05);
    assert_eq!(DeviceType::B1.slope_nm_per_volt(), 2500);
    assert_eq!(DeviceType::B1.slope_nm_per_volt() as f64 / 1e6, 0.0025);
    assert_eq!(DeviceType::A8.slope_nm_per_volt(), 6100);
}

#[test]
fn columns_and_rows() {
    let maxima: Vec<u32> = (0..COLUMN_COUNT).map(column_max_volts).collect();
    assert_eq!(maxima, vec![15, 30, 50, 100, 150, 170, 250, 300, 500]);
    for (i, d) in DeviceType::ALL.iter().enumerate() {
        assert_eq!(device_index(*d), i);
    }
}

#[test]
fn descriptions() {
    assert_eq!(DeviceType::B1.description(), "internal conductors");
    assert_eq!(
        DeviceType::A8.description(),
        "external component leads/terminations, uncoated, over 3050 m or in a vacuum"
    );
}

#[test]
fn voltage_selects_first_column_that_holds_it() {
    assert_eq!(voltage_column(0), Some(0));
    assert_eq!(voltage_column(10), Some(0));
    assert_eq!(voltage_column(15), Some(0));
    assert_eq!(voltage_column(16), Some(1));
    assert_eq!(voltage_column(100), Some(3));
    assert_eq!(voltage_column(171), Some(6));
    assert_eq!(voltage_column(500), Some(8));
    assert_eq!(voltage_column(501), None);
    assert_eq!(voltage_column(u64::MAX), None);
}

#[test]
fn higher_voltage_never_needs_less_spacing() {
    for d in DeviceType::ALL {
        let mut previous = 0;
        for v in 0..=500u64 {
            let um = d.spacing_um(voltage_column(v).unwrap());
            assert!(um >= previous);
            previous = um;
        }
    }
}
