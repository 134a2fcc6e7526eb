//! The bit-level number model against the machine's own binary32 semantics:
//! on every pair drawn from a zoo of ordinary and awkward values, the
//! library's integer-only comparisons must answer exactly as the hardware
//! float comparisons do.

use agentbox::fbits::{
    abs_bits, eq_bits, finite_bits, gt_bits, le_bits, lt_bits, max_bits, min_bits, nan_bits,
    negate_bits, total_le_bits,
};
use std::cmp::Ordering;

fn zoo() -> Vec<f32> {
    vec![
        0.0,
        -0.0,
        1.0,
        -1.0,
        1.5,
        -2.25,
        0.01,
        123.0,
        -123.456,
        f32::MIN_POSITIVE,
        -f32::MIN_POSITIVE,
        1.0e-40,  // subnormal
        -1.0e-40, // subnormal
        f32::MAX,
        f32::MIN,
        f32::INFINITY,
        f32::NEG_INFINITY,
        f32::NAN,
        -f32::NAN,
    ]
}

#[test]
fn comparisons_match_hardware_floats() {
    for &a in &zoo() {
        for &b in &zoo() {
            let (x, y) = (a.to_bits(), b.to_bits());
            assert_eq!(le_bits(x, y), a <= b, "le {} {}", a, b);
            assert_eq!(lt_bits(x, y), a < b, "lt {} {}", a, b);
            assert_eq!(gt_bits(x, y), a > b, "gt {} {}", a, b);
            assert_eq!(eq_bits(x, y), a == b, "eq {} {}", a, b);
            assert_eq!(
                total_le_bits(x, y),
                a.total_cmp(&b) != Ordering::Greater,
                "total order {} {}",
                a,
                b
            );
        }
    }
}

#[test]
fn min_and_max_match_hardware_floats() {
    for &a in &zoo() {
        for &b in &zoo() {
            if a.is_nan() || b.is_nan() {
                continue;
            }
            let m = f32::from_bits(min_bits(a.to_bits(), b.to_bits()));
            let x = f32::from_bits(max_bits(a.to_bits(), b.to_bits()));
            assert_eq!(m, a.min(b), "min {} {}", a, b);
            assert_eq!(x, a.max(b), "max {} {}", a, b);
        }
    }
}

#[test]
fn sign_and_class_match_hardware_floats() {
    for &a in &zoo() {
        let x = a.to_bits();
        assert_eq!(finite_bits(x), a.is_finite(), "finite {}", a);
        assert_eq!(nan_bits(x), a.is_nan(), "nan {}", a);
        assert_eq!(negate_bits(x), (-a).to_bits(), "neg {}", a);
        assert_eq!(abs_bits(x), a.abs().to_bits(), "abs {}", a);
    }
}
