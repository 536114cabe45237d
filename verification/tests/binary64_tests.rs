use stock_price_simulator::binary64::Binary64;
use stock_price_simulator::etf_simulation::WEIGHT_SUM_ACCURACY;
use stock_price_simulator::sign::Sign;

fn enc(x: f64) -> Binary64 {
    Binary64::from_bits(x.to_bits())
}

fn samples() -> Vec<f64> {
    vec![
        0.0,
        -0.0,
        1.0,
        -1.0,
        1e-6,
        -1e-6,
        0.95 - 1.0,
        5e-324,
        -5e-324,
        f64::MIN_POSITIVE,
        f64::MAX,
        f64::MIN,
        f64::INFINITY,
        f64::NEG_INFINITY,
        f64::NAN,
        -f64::NAN,
        100.0,
        252.0,
        0.2,
        -0.2,
        1.0000001,
        0.9999999,
    ]
}

#[test]
fn classify_agrees_with_comparisons_against_zero() {
    for x in samples() {
        let s = enc(x).classify();
        assert_eq!(s == Sign::Negative, x < 0.0, "{x}");
        assert_eq!(s == Sign::Zero, x == 0.0, "{x}");
        assert_eq!(s == Sign::Positive, x > 0.0, "{x}");
        assert_eq!(s == Sign::Undefined, x.is_nan(), "{x}");
        assert_eq!(enc(x).is_negative(), x < 0.0, "{x}");
        assert_eq!(enc(x).is_non_positive(), x <= 0.0, "{x}");
    }
}

#[test]
fn classify_exact_values() {
    assert_eq!(Binary64::from_bits(0).classify(), Sign::Zero);
    assert_eq!(Binary64::from_bits(0x8000_0000_0000_0000).classify(), Sign::Zero);
    assert_eq!(Binary64::from_bits(1).classify(), Sign::Positive);
    assert_eq!(Binary64::from_bits(0x8000_0000_0000_0001).classify(), Sign::Negative);
    assert_eq!(Binary64::from_bits(0x7FF0_0000_0000_0000).classify(), Sign::Positive);
    assert_eq!(Binary64::from_bits(0xFFF0_0000_0000_0000).classify(), Sign::Negative);
    assert_eq!(Binary64::from_bits(0x7FF0_0000_0000_0001).classify(), Sign::Undefined);
    assert_eq!(Binary64::from_bits(0xFFF8_0000_0000_0000).classify(), Sign::Undefined);
    assert_eq!(Binary64::from_bits(u64::MAX).classify(), Sign::Undefined);
    assert_eq!(Binary64::from_bits(0x4059_0000_0000_0000).classify(), Sign::Positive);
}

#[test]
fn exceeds_agrees_with_greater_than() {
    for x in samples() {
        for y in samples() {
            assert_eq!(enc(x).exceeds(enc(y)), x > y, "{x} > {y}");
        }
    }
}

#[test]
fn abs_agrees_with_absolute_value() {
    for x in samples() {
        assert_eq!(enc(x).abs().to_bits(), x.abs().to_bits(), "{x}");
    }
}

#[test]
fn check_infinite_agrees_with_is_infinite() {
    for x in samples() {
        assert_eq!(enc(x).check_infinite(), x.is_infinite(), "{x}");
    }
    assert!(enc((1e6f64 * 1e3).exp()).check_infinite());
    assert!(!enc((-0.05f64).exp()).check_infinite());
}

#[test]
fn bits_round_trip() {
    assert_eq!(Binary64::from_bits(0x3FF0_0000_0000_0000).to_bits(), 1.0f64.to_bits());
    assert_eq!(enc(100.0), enc(100.0));
    assert_ne!(enc(0.0), enc(-0.0));
}

#[test]
fn weight_tolerance_is_a_millionth() {
    assert_eq!(WEIGHT_SUM_ACCURACY, 1e-6f64.to_bits());
}

#[test]
fn sign_tests_exact() {
    assert!(Sign::Negative.is_negative() && Sign::Negative.is_non_positive() && !Sign::Negative.is_positive());
    assert!(!Sign::Zero.is_negative() && Sign::Zero.is_non_positive() && !Sign::Zero.is_positive());
    assert!(!Sign::Positive.is_negative() && !Sign::Positive.is_non_positive() && Sign::Positive.is_positive());
    assert!(!Sign::Undefined.is_negative() && !Sign::Undefined.is_non_positive() && !Sign::Undefined.is_positive());
}

#[test]
fn negated_agrees_with_negation() {
    for x in samples() {
        assert_eq!(enc(x).negated().to_bits(), (-x).to_bits(), "{x}");
        assert_eq!(enc(x).negated().negated(), enc(x), "{x}");
    }
}

#[test]
fn positive_part_agrees_with_max_zero() {
    for x in samples() {
        let expected = x.max(0.0);
        let got = f64::from_bits(enc(x).positive_part().to_bits());
        assert_eq!(got, expected, "{x}");
        assert!(!got.is_nan());
        assert!(got.is_sign_positive(), "{x}");
    }
}

#[test]
fn positive_part_exact_values() {
    assert_eq!(enc(12.5).positive_part(), enc(12.5));
    assert_eq!(enc(-12.5).positive_part(), enc(0.0));
    assert_eq!(enc(0.0).positive_part(), enc(0.0));
    assert_eq!(enc(-0.0).positive_part(), enc(0.0));
    assert_eq!(enc(f64::NAN).positive_part(), enc(0.0));
    assert_eq!(enc(f64::INFINITY).positive_part(), enc(f64::INFINITY));
    assert_eq!(enc(f64::NEG_INFINITY).positive_part(), enc(0.0));
}
