use rbridger::number::{Real, INFINITY, MILLION, ONE};

fn bits_of(x: f64) -> Real {
    Real { bits: x.to_bits() }
}

const SAMPLES: [f64; 18] = [
    0.0, -0.0, 1.0, -1.0, 0.5, 1e-300, -1e-300, 999999.9, -999999.9, 1000000.0, -1000000.0,
    1000000.1, -1000000.1, 1e300, -1e300, f64::INFINITY, f64::NEG_INFINITY, 5e-324,
];

#[test]
fn constants_are_the_numbers_they_name() {
    assert_eq!(f64::from_bits(ONE), 1.0);
    assert_eq!(f64::from_bits(MILLION), 1000000.0);
    assert_eq!(f64::from_bits(INFINITY), f64::INFINITY);
    assert_eq!(Real::zero(), bits_of(0.0));
    assert_eq!(Real::one(), bits_of(1.0));
}

#[test]
fn negation_flips_the_sign() {
    for x in SAMPLES {
        assert_eq!(bits_of(x).negated(), bits_of(-x));
        assert_eq!(bits_of(x).negated().negated(), bits_of(x));
    }
}

#[test]
fn bounds_are_those_of_clamp() {
    for x in SAMPLES {
        assert_eq!(bits_of(x).clamped(), bits_of(x.clamp(-1000000.0, 1000000.0)), "{x}");
        assert_eq!(bits_of(x).clamped().clamped(), bits_of(x).clamped());
    }
}

#[test]
fn what_is_not_a_number_is_not_bounded() {
    assert!(f64::from_bits(bits_of(f64::NAN).clamped().bits).is_nan());
}

#[test]
fn integers_are_exact() {
    for n in [0i64, 1, -1, 2, 3, 10, 1023, -1024, 999_999, -1_000_000, (1 << 53) - 1, 1 - (1 << 53)] {
        assert_eq!(Real::from_integer(n), bits_of(n as f64), "{n}");
    }
    for n in -3000i64..3000 {
        assert_eq!(Real::from_integer(n), bits_of(n as f64));
    }
}
