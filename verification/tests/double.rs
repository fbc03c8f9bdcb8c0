use dbv::double::{Double, INFINITY_BITS, ONE_BITS, SIGN_BIT};

fn d(x: f64) -> Double {
    Double::from_bits(x.to_bits())
}

const SAMPLES: [f64; 17] = [
    0.0,
    -0.0,
    1.0,
    -1.0,
    0.5,
    -0.5,
    1e-320,
    -1e-320,
    f64::MIN_POSITIVE,
    f64::MAX,
    f64::MIN,
    f64::INFINITY,
    f64::NEG_INFINITY,
    f64::NAN,
    -f64::NAN,
    3.0000000000000004,
    3.0,
];

#[test]
fn constants_are_the_bit_patterns_of_the_numbers() {
    assert_eq!(Double::zero().to_bits(), 0f64.to_bits());
    assert_eq!(Double::one().to_bits(), 1f64.to_bits());
    assert_eq!(Double::minus_one().to_bits(), (-1f64).to_bits());
    assert_eq!(Double::infinity().to_bits(), f64::INFINITY.to_bits());
    assert_eq!(ONE_BITS, 1f64.to_bits());
    assert_eq!(INFINITY_BITS, f64::INFINITY.to_bits());
    assert_eq!(SIGN_BIT, (-0f64).to_bits());
    assert_eq!(Double::from_bits(42).to_bits(), 42);
    assert_eq!(Double::from_bits(42), Double { bits: 42 });
}

#[test]
fn order_is_the_order_of_the_numbers() {
    for a in SAMPLES {
        assert_eq!(d(a).is_nan(), a.is_nan());
        for b in SAMPLES {
            assert_eq!(d(a).lt(d(b)), a < b, "{a} < {b}");
            assert_eq!(d(a).gt(d(b)), a > b, "{a} > {b}");
            assert_eq!(d(a).num_eq(d(b)), a == b, "{a} == {b}");
        }
    }
}

#[test]
fn min_and_max_pass_over_what_is_not_a_number() {
    for a in SAMPLES {
        for b in SAMPLES {
            let least = f64::from_bits(d(a).min(d(b)).to_bits());
            let greatest = f64::from_bits(d(a).max(d(b)).to_bits());
            if a.is_nan() && b.is_nan() {
                assert!(least.is_nan() && greatest.is_nan());
            } else {
                assert_eq!(least, a.min(b), "min of {a} and {b}");
                assert_eq!(greatest, a.max(b), "max of {a} and {b}");
            }
        }
    }
    assert_eq!(d(0.0).min(d(-0.0)), d(0.0));
    assert_eq!(d(-0.0).max(d(0.0)), d(-0.0));
}

#[test]
fn equality_is_equality_of_bits() {
    assert_ne!(d(0.0), d(-0.0));
    assert_eq!(d(f64::NAN), d(f64::NAN));
    assert!(!d(f64::NAN).num_eq(d(f64::NAN)));
    assert!(d(0.0).num_eq(d(-0.0)));
}
