use mcdrag::{validate_boundary_layer, BoundaryLayer};

#[test]
fn parses_canonical_codes() {
    assert_eq!(BoundaryLayer::from_str("L/L"), Some(BoundaryLayer::LaminarLaminar));
    assert_eq!(BoundaryLayer::from_str("L/T"), Some(BoundaryLayer::LaminarTurbulent));
    assert_eq!(BoundaryLayer::from_str("T/T"), Some(BoundaryLayer::TurbulentTurbulent));
}

#[test]
fn parsing_ignores_letter_case() {
    assert_eq!(BoundaryLayer::from_str("l/l"), Some(BoundaryLayer::LaminarLaminar));
    assert_eq!(BoundaryLayer::from_str("l/T"), Some(BoundaryLayer::LaminarTurbulent));
    assert_eq!(BoundaryLayer::from_str("t/t"), Some(BoundaryLayer::TurbulentTurbulent));
}

#[test]
fn rejects_other_codes() {
    assert_eq!(BoundaryLayer::from_str(""), None);
    assert_eq!(BoundaryLayer::from_str("T/L"), None);
    assert_eq!(BoundaryLayer::from_str("L/L "), None);
    assert_eq!(BoundaryLayer::from_str("LL"), None);
    assert_eq!(BoundaryLayer::from_str("L-T"), None);
    assert_eq!(BoundaryLayer::from_str("laminar"), None);
}

#[test]
fn canonical_code_round_trips() {
    for b in [
        BoundaryLayer::LaminarLaminar,
        BoundaryLayer::LaminarTurbulent,
        BoundaryLayer::TurbulentTurbulent,
    ] {
        assert_eq!(BoundaryLayer::from_str(b.to_str()), Some(b));
        assert_eq!(BoundaryLayer::from_str(&b.to_str().to_lowercase()), Some(b));
    }
    assert_eq!(BoundaryLayer::LaminarTurbulent.to_str(), "L/T");
}

#[test]
fn canonical_reader_wants_upper_case() {
    assert_eq!(BoundaryLayer::from_canonical("T/T"), Some(BoundaryLayer::TurbulentTurbulent));
    assert_eq!(BoundaryLayer::from_canonical("t/t"), None);
}

#[test]
fn validates_codes_without_computing() {
    assert!(validate_boundary_layer("l/t"));
    assert!(validate_boundary_layer("T/T"));
    assert!(!validate_boundary_layer("X/T"));
    assert!(!validate_boundary_layer(""));
}
