use mcdrag::{
    Binary64, HALF_BITS, LONG_BOATTAIL_BITS, ONE_BITS, STEEP_BOATTAIL_BITS, STEEP_FLARE_BITS,
    ZERO_BITS,
};

fn samples() -> Vec<f64> {
    vec![
        0.0,
        -0.0,
        1.0,
        -1.0,
        0.5,
        0.65,
        1.35,
        1.5,
        1e-310,
        -1e-310,
        f64::MIN_POSITIVE,
        f64::MAX,
        f64::MIN,
        f64::INFINITY,
        f64::NEG_INFINITY,
        f64::NAN,
        -f64::NAN,
        0.9999999999999999,
        1.0000000000000002,
        123456.789,
        -2.5,
    ]
}

#[test]
fn ordering_matches_hardware_comparison() {
    for &a in &samples() {
        for &b in &samples() {
            let x = Binary64::from_bits(a.to_bits());
            let y = Binary64::from_bits(b.to_bits());
            assert_eq!(x.lt(&y), a < b, "{} < {}", a, b);
            assert_eq!(x.le(&y), a <= b, "{} <= {}", a, b);
        }
    }
}

#[test]
fn nan_is_recognised() {
    assert!(Binary64::from_bits(f64::NAN.to_bits()).is_nan());
    assert!(!Binary64::from_bits(f64::INFINITY.to_bits()).is_nan());
    assert!(!Binary64::from_bits(0.0f64.to_bits()).is_nan());
}

#[test]
fn bits_round_trip() {
    let x = Binary64::from_bits(7.62f64.to_bits());
    assert_eq!(f64::from_bits(x.to_bits()), 7.62);
}

#[test]
fn threshold_patterns_are_the_decimal_values() {
    assert_eq!(ZERO_BITS, 0.0f64.to_bits());
    assert_eq!(HALF_BITS, 0.5f64.to_bits());
    assert_eq!(STEEP_BOATTAIL_BITS, 0.65f64.to_bits());
    assert_eq!(ONE_BITS, 1.0f64.to_bits());
    assert_eq!(STEEP_FLARE_BITS, 1.35f64.to_bits());
    assert_eq!(LONG_BOATTAIL_BITS, 1.5f64.to_bits());
}
