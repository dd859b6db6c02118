use dns_failover::throughput::Throughput;

fn speed(value: f64) -> Throughput {
    Throughput::from_bits(value.to_bits())
}

fn samples() -> Vec<f64> {
    vec![
        0.0,
        -0.0,
        f64::MIN_POSITIVE,
        -f64::MIN_POSITIVE,
        5e-324,
        -5e-324,
        0.01,
        0.05,
        0.5,
        1.0,
        -1.0,
        2.5,
        -2.5,
        1e300,
        -1e300,
        f64::MAX,
        f64::MIN,
        f64::INFINITY,
        f64::NEG_INFINITY,
        f64::NAN,
        -f64::NAN,
    ]
}

#[test]
fn bits_are_kept() {
    assert_eq!(Throughput::from_bits(0x3fe0_0000_0000_0000).to_bits(), 0x3fe0_0000_0000_0000);
    assert_eq!(speed(0.5).to_bits(), 0x3fe0_0000_0000_0000);
    assert_eq!(speed(0.5).bits, 0.5f64.to_bits());
}

#[test]
fn comparison_agrees_with_doubles() {
    for a in samples() {
        for b in samples() {
            assert_eq!(speed(a).is_below(speed(b)), a < b, "{} < {}", a, b);
        }
    }
}

#[test]
fn nan_is_told_apart() {
    for a in samples() {
        assert_eq!(speed(a).nan(), a.is_nan(), "{}", a);
    }
}

#[test]
fn zeros_of_either_sign_are_equal() {
    assert!(!speed(-0.0).is_below(speed(0.0)));
    assert!(!speed(0.0).is_below(speed(-0.0)));
}

#[test]
fn half_is_below_one() {
    assert!(speed(0.5).is_below(speed(1.0)));
    assert!(!speed(1.0).is_below(speed(0.5)));
    assert!(!speed(1.0).is_below(speed(1.0)));
}

#[test]
fn negative_numbers_order_by_magnitude_reversed() {
    assert!(speed(-2.0).is_below(speed(-1.0)));
    assert!(!speed(-1.0).is_below(speed(-2.0)));
    assert!(speed(-1.0).is_below(speed(0.0)));
}

#[test]
fn infinity_is_above_every_number() {
    assert!(speed(f64::MAX).is_below(speed(f64::INFINITY)));
    assert!(speed(f64::NEG_INFINITY).is_below(speed(f64::MIN)));
    assert!(!speed(f64::INFINITY).is_below(speed(f64::INFINITY)));
}
