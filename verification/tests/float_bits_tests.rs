use document_encoder::float_bits::{FloatBits, HOUR_BITS, INFINITY_BITS, SIGN_BIT};

fn samples() -> Vec<f64> {
    vec![
        0.0,
        -0.0,
        1.0,
        -1.0,
        0.5,
        3599.999,
        3600.0,
        3600.001,
        14.0,
        83.5,
        1e300,
        -1e300,
        f64::MIN_POSITIVE,
        5e-324,
        -5e-324,
        f64::MAX,
        f64::MIN,
        f64::INFINITY,
        f64::NEG_INFINITY,
        f64::NAN,
        -f64::NAN,
    ]
}

#[test]
fn at_most_agrees_with_floating_point_comparison() {
    for a in samples() {
        for b in samples() {
            let x = FloatBits::from_bits(a.to_bits());
            let y = FloatBits::from_bits(b.to_bits());
            assert_eq!(x.at_most(&y), a <= b, "{} <= {}", a, b);
        }
    }
}

#[test]
fn positive_agrees_with_floating_point_comparison() {
    for a in samples() {
        assert_eq!(FloatBits::from_bits(a.to_bits()).positive(), a > 0.0, "{}", a);
    }
}

#[test]
fn nan_agrees_with_floating_point() {
    for a in samples() {
        assert_eq!(FloatBits::from_bits(a.to_bits()).nan(), a.is_nan(), "{}", a);
    }
}

#[test]
fn constants_are_the_patterns_they_name() {
    assert_eq!(HOUR_BITS, 3600.0f64.to_bits());
    assert_eq!(INFINITY_BITS, f64::INFINITY.to_bits());
    assert_eq!(SIGN_BIT, (-0.0f64).to_bits());
    assert_eq!(FloatBits::hour().to_bits(), 3600.0f64.to_bits());
    assert_eq!(FloatBits::infinity().to_bits(), f64::INFINITY.to_bits());
}

#[test]
fn less_than_agrees_with_floating_point_comparison() {
    for a in samples() {
        for b in samples() {
            let x = FloatBits::from_bits(a.to_bits());
            let y = FloatBits::from_bits(b.to_bits());
            assert_eq!(x.less_than(&y), a < b, "{} < {}", a, b);
        }
    }
}
