use pcb_toolkit::text::{is_whitespace, to_lower};
use pcb_toolkit::units::{
    split_number_suffix, CapUnit, FreqUnit, IndUnit, LengthUnit, ResUnit, TempUnit,
    UnitParseError,
};

#[test]
fn split_bare_number() {
    assert_eq!(split_number_suffix("100"), ("100", ""));
}

#[test]
fn split_with_suffix() {
    assert_eq!(split_number_suffix("0.254mm"), ("0.254", "mm"));
}

#[test]
fn split_scientific() {
    assert_eq!(split_number_suffix("1e3mm"), ("1e3", "mm"));
    assert_eq!(split_number_suffix("1.5E-6nH"), ("1.5E-6", "nH"));
}

#[test]
fn split_negative() {
    assert_eq!(split_number_suffix("-5mil"), ("-5", "mil"));
}

#[test]
fn split_whitespace() {
    assert_eq!(split_number_suffix("  100mil  "), ("100", "mil"));
    // Space between number and suffix (quoted on shell).
    assert_eq!(split_number_suffix("100 mil"), ("100", "mil"));
}

#[test]
fn split_exponent_needs_a_digit() {
    assert_eq!(split_number_suffix("1e"), ("1", "e"));
    assert_eq!(split_number_suffix("1e+"), ("1", "e+"));
    assert_eq!(split_number_suffix("2E+7GHz"), ("2E+7", "GHz"));
    assert_eq!(split_number_suffix("3em"), ("3", "em"));
}

#[test]
fn split_without_number_or_with_fraction_only() {
    assert_eq!(split_number_suffix(""), ("", ""));
    assert_eq!(split_number_suffix("mm"), ("", "mm"));
    assert_eq!(split_number_suffix(".5mm"), (".5", "mm"));
    assert_eq!(split_number_suffix("+2."), ("+2.", ""));
    assert_eq!(split_number_suffix("\u{3000}7\u{A0}µm\t"), ("7", "µm"));
    assert_eq!(split_number_suffix("25°C"), ("25", "°C"));
}

#[test]
fn length_suffixes() {
    assert_eq!(LengthUnit::from_suffix(""), Some(LengthUnit::Mils));
    assert_eq!(LengthUnit::from_suffix("MIL"), Some(LengthUnit::Mils));
    assert_eq!(LengthUnit::from_suffix("mils"), Some(LengthUnit::Mils));
    assert_eq!(LengthUnit::from_suffix("MM"), Some(LengthUnit::Mm));
    assert_eq!(LengthUnit::from_suffix("inch"), Some(LengthUnit::Inches));
    assert_eq!(LengthUnit::from_suffix("Inches"), Some(LengthUnit::Inches));
    assert_eq!(LengthUnit::from_suffix("um"), Some(LengthUnit::Um));
    assert_eq!(LengthUnit::from_suffix("µm"), Some(LengthUnit::Um));
    assert_eq!(LengthUnit::from_suffix("ft"), None);
    assert_eq!(LengthUnit::from_suffix("mil "), None);
}

#[test]
fn freq_suffixes() {
    assert_eq!(FreqUnit::from_suffix(""), Some(FreqUnit::Hz));
    assert_eq!(FreqUnit::from_suffix("Hz"), Some(FreqUnit::Hz));
    assert_eq!(FreqUnit::from_suffix("kHz"), Some(FreqUnit::KHz));
    assert_eq!(FreqUnit::from_suffix("MHz"), Some(FreqUnit::MHz));
    assert_eq!(FreqUnit::from_suffix("ghz"), Some(FreqUnit::GHz));
    // The Kelvin sign lower-cases to `k`, as `str::to_lowercase` does.
    assert_eq!(FreqUnit::from_suffix("\u{212A}Hz"), Some(FreqUnit::KHz));
    assert_eq!("\u{212A}Hz".to_lowercase(), "khz");
    assert_eq!(FreqUnit::from_suffix("rpm"), None);
}

#[test]
fn capacitance_and_inductance_suffixes() {
    assert_eq!(CapUnit::from_suffix(""), Some(CapUnit::F));
    assert_eq!(CapUnit::from_suffix("pF"), Some(CapUnit::PF));
    assert_eq!(CapUnit::from_suffix("nF"), Some(CapUnit::NF));
    assert_eq!(CapUnit::from_suffix("µF"), Some(CapUnit::UF));
    assert_eq!(CapUnit::from_suffix("UF"), Some(CapUnit::UF));
    assert_eq!(CapUnit::from_suffix("pH"), None);
    assert_eq!(IndUnit::from_suffix(""), Some(IndUnit::H));
    assert_eq!(IndUnit::from_suffix("nH"), Some(IndUnit::NH));
    assert_eq!(IndUnit::from_suffix("µH"), Some(IndUnit::UH));
    assert_eq!(IndUnit::from_suffix("mH"), Some(IndUnit::MH));
    assert_eq!(IndUnit::from_suffix("nF"), None);
}

#[test]
fn temperature_suffixes_are_case_sensitive() {
    assert_eq!(TempUnit::from_suffix(""), Some(TempUnit::Celsius));
    assert_eq!(TempUnit::from_suffix("C"), Some(TempUnit::Celsius));
    assert_eq!(TempUnit::from_suffix("°C"), Some(TempUnit::Celsius));
    assert_eq!(TempUnit::from_suffix("degC"), Some(TempUnit::Celsius));
    assert_eq!(TempUnit::from_suffix("F"), Some(TempUnit::Fahrenheit));
    assert_eq!(TempUnit::from_suffix("°F"), Some(TempUnit::Fahrenheit));
    assert_eq!(TempUnit::from_suffix("degF"), Some(TempUnit::Fahrenheit));
    assert_eq!(TempUnit::from_suffix("c"), None);
    assert_eq!(TempUnit::from_suffix("K"), None);
}

#[test]
fn parse_error_messages() {
    assert_eq!(
        UnitParseError::InvalidNumber("abc".to_string()).message(),
        "invalid number in 'abc'"
    );
    assert_eq!(
        UnitParseError::UnknownSuffix("100ft".to_string()).message(),
        "unknown unit suffix in '100ft'"
    );
    assert_eq!(UnitParseError::NotFinite.message(), "value is not finite");
}

#[test]
fn whitespace_matches_std_for_every_char() {
    for cp in 0..=0x10FFFFu32 {
        if let Some(c) = char::from_u32(cp) {
            assert_eq!(is_whitespace(c), c.is_whitespace(), "U+{cp:04X}");
        }
    }
}

#[test]
fn lower_casing_agrees_with_std_where_std_gives_one_ascii_char() {
    for cp in 0..=0x10FFFFu32 {
        if let Some(c) = char::from_u32(cp) {
            let std_lower: Vec<char> = c.to_lowercase().collect();
            if std_lower.len() == 1 && std_lower[0].is_ascii() {
                assert_eq!(to_lower(c), std_lower[0], "U+{cp:04X}");
            } else {
                // Characters that do not lower-case to one ASCII character
                // are kept, and never become ASCII.
                assert_eq!(to_lower(c), c, "U+{cp:04X}");
                assert!(!c.is_ascii());
            }
        }
    }
}

#[test]
fn resistance_suffixes_are_case_sensitive() {
    assert_eq!(ResUnit::from_suffix(""), Some(ResUnit::Ohm));
    assert_eq!(ResUnit::from_suffix("Ohm"), Some(ResUnit::Ohm));
    assert_eq!(ResUnit::from_suffix("Ω"), Some(ResUnit::Ohm));
    assert_eq!(ResUnit::from_suffix("mOhm"), Some(ResUnit::MOhm));
    assert_eq!(ResUnit::from_suffix("k"), Some(ResUnit::KOhm));
    assert_eq!(ResUnit::from_suffix("kOhm"), Some(ResUnit::KOhm));
    assert_eq!(ResUnit::from_suffix("M"), Some(ResUnit::MOhmMega));
    assert_eq!(ResUnit::from_suffix("MOhm"), Some(ResUnit::MOhmMega));
    assert_eq!(ResUnit::from_suffix("K"), None);
    assert_eq!(ResUnit::from_suffix("m"), None);
}
