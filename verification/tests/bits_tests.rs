//! The binary64 bit-pattern order against the ordinary floating-point
//! comparisons it models.

use planet_generator::bits::{finite_bits, le_bits, lt_bits};

const SAMPLES: [f64; 12] = [
    0.0, -0.0, 1.0, -1.0, 0.0234375, -0.0234375, 1.5e300, -1.5e300, 5e-324, -5e-324, 2.0, 0.4,
];

#[test]
fn strict_order_matches_float_order() {
    for &a in SAMPLES.iter() {
        for &b in SAMPLES.iter() {
            assert_eq!(
                lt_bits(a.to_bits(), b.to_bits()),
                a < b,
                "lt_bits disagrees on {a} < {b}"
            );
        }
    }
}

#[test]
fn weak_order_matches_float_order() {
    for &a in SAMPLES.iter() {
        for &b in SAMPLES.iter() {
            assert_eq!(
                le_bits(a.to_bits(), b.to_bits()),
                a <= b,
                "le_bits disagrees on {a} <= {b}"
            );
        }
    }
}

#[test]
fn zeroes_of_both_signs_rank_equal() {
    assert!(!lt_bits(0.0f64.to_bits(), (-0.0f64).to_bits()));
    assert!(!lt_bits((-0.0f64).to_bits(), 0.0f64.to_bits()));
    assert!(le_bits(0.0f64.to_bits(), (-0.0f64).to_bits()));
}

#[test]
fn finiteness_matches_float_classification() {
    for &a in SAMPLES.iter() {
        assert!(finite_bits(a.to_bits()));
    }
    assert!(!finite_bits(f64::INFINITY.to_bits()));
    assert!(!finite_bits(f64::NEG_INFINITY.to_bits()));
    assert!(!finite_bits(f64::NAN.to_bits()));
}
