use sensor_pipeline::reading::{exceeds, is_nan_bits};

fn samples() -> Vec<f32> {
    vec![
        0.0, -0.0, 1.0, -1.0, 2.0, 1.9999999, 2.0000002, 15.0, 15.000001, 14.999999, 30.0,
        30.5, -30.0, 1.0e-45, -1.0e-45, 1.17549435e-38, f32::MAX, f32::MIN, f32::INFINITY,
        f32::NEG_INFINITY, f32::NAN, -f32::NAN, 0.5, 123456.0, -0.25,
    ]
}

#[test]
fn exceeds_agrees_with_float_comparison() {
    for a in samples() {
        for b in samples() {
            assert_eq!(exceeds(a.to_bits(), b.to_bits()), a > b, "{} > {}", a, b);
        }
    }
}

#[test]
fn nan_patterns_are_recognised() {
    assert!(is_nan_bits(f32::NAN.to_bits()));
    assert!(is_nan_bits((-f32::NAN).to_bits()));
    assert!(is_nan_bits(0x7f80_0001));
    assert!(!is_nan_bits(f32::INFINITY.to_bits()));
    assert!(!is_nan_bits(f32::NEG_INFINITY.to_bits()));
    assert!(!is_nan_bits(0.0f32.to_bits()));
}

#[test]
fn zeros_compare_equal() {
    assert!(!exceeds(0.0f32.to_bits(), (-0.0f32).to_bits()));
    assert!(!exceeds((-0.0f32).to_bits(), 0.0f32.to_bits()));
}
