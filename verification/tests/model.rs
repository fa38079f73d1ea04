use pcb_toolkit::model::{ModelInfo, ModelStatus};

#[test]
fn status_labels() {
    assert_eq!(ModelStatus::Validated.label(), "validated");
    assert_eq!(ModelStatus::Compatibility.label(), "compatibility");
    assert_eq!(ModelStatus::Experimental.label(), "experimental");
}

#[test]
fn only_unvalidated_models_print_caveats() {
    assert!(!ModelStatus::Validated.needs_caveat());
    assert!(ModelStatus::Compatibility.needs_caveat());
    assert!(ModelStatus::Experimental.needs_caveat());
}

#[test]
fn caveat_line() {
    let info = ModelInfo {
        name: "IPC-2141A surface microstrip differential pair",
        status: ModelStatus::Compatibility,
        reference: "IPC-2141A §4",
        validity: "0.1 < W/H < 2.0",
    };
    assert_eq!(
        info.caveat(),
        "Model: IPC-2141A surface microstrip differential pair [compatibility] — IPC-2141A §4. Range: 0.1 < W/H < 2.0"
    );
}
