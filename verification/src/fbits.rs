//! A bit-level model of IEEE 754 binary32 numbers.
//!
//! Throughout the crate a binary32 number is carried as its bit pattern, a
//! `u32`. The layout is sign-magnitude: the top bit is the sign, the low 31
//! bits are exponent and fraction, and larger magnitude bits mean larger
//! magnitude numbers. That makes order, finiteness, negation and absolute
//! value pure integer questions, which this module answers with verified
//! integer code; no floating-point instruction is ever executed here.

use vstd::prelude::*;

verus! {

/// Bit pattern of 1.0.
pub const ONE_BITS: u32 = 0x3F80_0000;

/// Magnitude (sign bit cleared) of the smallest non-finite pattern: the
/// shared magnitude of the two infinities.
pub const INF_MAG: u32 = 0x7F80_0000;

/// True when the pattern has its sign bit set.
pub open spec fn sign_of(a: u32) -> bool {
    a >= 0x8000_0000
}

/// The magnitude bits of the pattern: exponent and fraction.
pub open spec fn mag_of(a: u32) -> int {
    (a as int) % 0x8000_0000
}

/// The pattern denotes a NaN: maximal exponent and a non-zero fraction.
pub open spec fn is_nan_bits(a: u32) -> bool {
    mag_of(a) > 0x7F80_0000
}

/// The pattern denotes a finite number: the exponent is not maximal.
pub open spec fn is_finite_bits(a: u32) -> bool {
    mag_of(a) < 0x7F80_0000
}

/// Where the pattern falls in the order of the numbers it can denote: negative
/// patterns in reverse magnitude order, then non-negative patterns. Both zeros
/// map to 0, so they compare equal, as IEEE 754 comparison demands.
pub open spec fn ord_of(a: u32) -> int {
    if sign_of(a) {
        -mag_of(a)
    } else {
        mag_of(a)
    }
}

/// IEEE 754 `<=` on the denoted numbers: false whenever either side is NaN.
pub open spec fn float_le(a: u32, b: u32) -> bool {
    !is_nan_bits(a) && !is_nan_bits(b) && ord_of(a) <= ord_of(b)
}

/// IEEE 754 `<` on the denoted numbers: false whenever either side is NaN.
pub open spec fn float_lt(a: u32, b: u32) -> bool {
    !is_nan_bits(a) && !is_nan_bits(b) && ord_of(a) < ord_of(b)
}

/// IEEE 754 `>` on the denoted numbers: false whenever either side is NaN.
pub open spec fn float_gt(a: u32, b: u32) -> bool {
    float_lt(b, a)
}

/// IEEE 754 `==` on the denoted numbers: the two zeros are equal, and a NaN
/// equals nothing.
pub open spec fn float_eq(a: u32, b: u32) -> bool {
    !is_nan_bits(a) && !is_nan_bits(b) && ord_of(a) == ord_of(b)
}

/// Where the pattern falls in the IEEE 754 total order, which also separates
/// the two zeros and places NaNs beyond the infinities of their sign.
pub open spec fn total_key(a: u32) -> int {
    if sign_of(a) {
        -mag_of(a) - 1
    } else {
        mag_of(a)
    }
}

/// The pattern with the sign bit flipped: the negated number.
pub open spec fn neg_of(a: u32) -> u32 {
    if a >= 0x8000_0000 {
        (a - 0x8000_0000) as u32
    } else {
        (a + 0x8000_0000) as u32
    }
}

/// The smaller pattern under [`float_le`]; when `b` denotes NaN it is `b`
/// itself. On two numbers this agrees with IEEE 754 minimum up to the choice
/// between the two zeros.
pub open spec fn fmin(a: u32, b: u32) -> u32 {
    if float_le(a, b) {
        a
    } else {
        b
    }
}

/// The larger pattern under [`float_le`]; when `b` denotes NaN it is `a`.
/// On two numbers this agrees with IEEE 754 maximum up to the choice between
/// the two zeros.
pub open spec fn fmax(a: u32, b: u32) -> u32 {
    if float_le(a, b) {
        b
    } else {
        a
    }
}

/// Decides [`is_finite_bits`].
pub fn finite_bits(a: u32) -> (r: bool)
    ensures
        r == is_finite_bits(a),
{
    a % 0x8000_0000 < INF_MAG
}

/// Decides [`is_nan_bits`].
pub fn nan_bits(a: u32) -> (r: bool)
    ensures
        r == is_nan_bits(a),
{
    a % 0x8000_0000 > INF_MAG
}

/// The position of the pattern in the order of denoted numbers, as an integer.
fn ord_bits(a: u32) -> (r: i64)
    ensures
        r as int == ord_of(a),
{
    let m = a % 0x8000_0000;
    if a >= 0x8000_0000 {
        -(m as i64)
    } else {
        m as i64
    }
}

/// Decides [`float_le`].
pub fn le_bits(a: u32, b: u32) -> (r: bool)
    ensures
        r == float_le(a, b),
{
    if nan_bits(a) || nan_bits(b) {
        false
    } else {
        ord_bits(a) <= ord_bits(b)
    }
}

/// Decides [`float_lt`].
pub fn lt_bits(a: u32, b: u32) -> (r: bool)
    ensures
        r == float_lt(a, b),
{
    if nan_bits(a) || nan_bits(b) {
        false
    } else {
        ord_bits(a) < ord_bits(b)
    }
}

/// Decides [`float_gt`].
pub fn gt_bits(a: u32, b: u32) -> (r: bool)
    ensures
        r == float_gt(a, b),
{
    lt_bits(b, a)
}

/// Decides [`float_eq`].
pub fn eq_bits(a: u32, b: u32) -> (r: bool)
    ensures
        r == float_eq(a, b),
{
    if nan_bits(a) || nan_bits(b) {
        false
    } else {
        ord_bits(a) == ord_bits(b)
    }
}

/// Compares two patterns in the IEEE 754 total order, so that even NaNs are
/// ordered and no pair is incomparable.
pub fn total_le_bits(a: u32, b: u32) -> (r: bool)
    ensures
        r == (total_key(a) <= total_key(b)),
{
    let ka: i64 = if a >= 0x8000_0000 {
        -((a % 0x8000_0000) as i64) - 1
    } else {
        (a % 0x8000_0000) as i64
    };
    let kb: i64 = if b >= 0x8000_0000 {
        -((b % 0x8000_0000) as i64) - 1
    } else {
        (b % 0x8000_0000) as i64
    };
    ka <= kb
}

/// Computes [`fmin`].
pub fn min_bits(a: u32, b: u32) -> (r: u32)
    ensures
        r == fmin(a, b),
{
    if le_bits(a, b) {
        a
    } else {
        b
    }
}

/// Computes [`fmax`].
pub fn max_bits(a: u32, b: u32) -> (r: u32)
    ensures
        r == fmax(a, b),
{
    if le_bits(a, b) {
        b
    } else {
        a
    }
}

/// Clears the sign bit: the absolute value of the denoted number.
pub fn abs_bits(a: u32) -> (r: u32)
    ensures
        r as int == mag_of(a),
        !sign_of(r),
{
    a % 0x8000_0000
}

/// Flips the sign bit: the negated number, [`neg_of`].
pub fn negate_bits(a: u32) -> (r: u32)
    ensures
        r == neg_of(a),
{
    if a >= 0x8000_0000 {
        a - 0x8000_0000
    } else {
        a + 0x8000_0000
    }
}

} // verus!
