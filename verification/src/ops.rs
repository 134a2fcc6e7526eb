//! The scalar-arithmetic evaluator and three-component vectors.
//!
//! The library carries every IEEE 754 binary32 number as its bit pattern (see
//! [`crate::fbits`]) and never executes floating-point arithmetic itself. The
//! embedding application supplies the arithmetic as an evaluator: a function
//! from a [`ScalarOp`] and two operand patterns to a result pattern. The
//! contracts in this crate speak of the evaluator's outputs through
//! `call_ensures`, so everything proved here holds for whatever the evaluator
//! answers; with an evaluator that computes genuine binary32 arithmetic, the
//! functions compute what the formulas in the documentation say.

use vstd::prelude::*;

verus! {

/// One scalar operation that an evaluator can be asked to perform on the
/// numbers two bit patterns denote. `Sqrt` is unary: its second operand is
/// passed as 0 and is to be ignored.
#[derive(Clone, Copy, PartialEq, Eq, Structural, Debug)]
pub enum ScalarOp {
    Add,
    Sub,
    Mul,
    Div,
    Sqrt,
}

/// A vector of three binary32 bit patterns.
#[derive(Clone, Copy, PartialEq, Eq, Structural, Debug)]
pub struct Vec3 {
    pub x: u32,
    pub y: u32,
    pub z: u32,
}

impl Vec3 {
    /// All three components denote finite numbers.
    pub open spec fn is_finite(self) -> bool {
        crate::fbits::is_finite_bits(self.x) && crate::fbits::is_finite_bits(self.y)
            && crate::fbits::is_finite_bits(self.z)
    }
}

/// The evaluator may be called on any operation and operands.
pub open spec fn op_ok<F: Fn(ScalarOp, u32, u32) -> u32>(f: F) -> bool {
    forall|op: ScalarOp, a: u32, b: u32| #[trigger] call_requires(f, (op, a, b))
}

/// `r` is an answer the evaluator can give for `op` on `a` and `b`.
pub open spec fn op_out<F: Fn(ScalarOp, u32, u32) -> u32>(
    f: F,
    op: ScalarOp,
    a: u32,
    b: u32,
    r: u32,
) -> bool {
    call_ensures(f, (op, a, b), r)
}

/// `r` is an answer the evaluator can give for the square root of `a`.
pub open spec fn sqrt_out<F: Fn(ScalarOp, u32, u32) -> u32>(f: F, a: u32, r: u32) -> bool {
    op_out(f, ScalarOp::Sqrt, a, 0u32, r)
}

/// `r` is `op` applied componentwise to `a` and `b`.
pub open spec fn bin3<F: Fn(ScalarOp, u32, u32) -> u32>(
    f: F,
    op: ScalarOp,
    a: Vec3,
    b: Vec3,
    r: Vec3,
) -> bool {
    op_out(f, op, a.x, b.x, r.x) && op_out(f, op, a.y, b.y, r.y) && op_out(f, op, a.z, b.z, r.z)
}

/// `r` is the vector `a` scaled on the right by the scalar `s`: each
/// component is a product `component * s`.
pub open spec fn scale3<F: Fn(ScalarOp, u32, u32) -> u32>(f: F, a: Vec3, s: u32, r: Vec3) -> bool {
    op_out(f, ScalarOp::Mul, a.x, s, r.x) && op_out(f, ScalarOp::Mul, a.y, s, r.y) && op_out(
        f,
        ScalarOp::Mul,
        a.z,
        s,
        r.z,
    )
}

/// `r` is the vector `a` scaled on the left by the scalar `s`: each
/// component is a product `s * component`.
pub open spec fn scale3_left<F: Fn(ScalarOp, u32, u32) -> u32>(
    f: F,
    s: u32,
    a: Vec3,
    r: Vec3,
) -> bool {
    op_out(f, ScalarOp::Mul, s, a.x, r.x) && op_out(f, ScalarOp::Mul, s, a.y, r.y) && op_out(
        f,
        ScalarOp::Mul,
        s,
        a.z,
        r.z,
    )
}

/// The chain of products and sums `(a.x*b.x + a.y*b.y) + a.z*b.z` with its
/// intermediate values named.
pub open spec fn dot_chain<F: Fn(ScalarOp, u32, u32) -> u32>(
    f: F,
    a: Vec3,
    b: Vec3,
    xx: u32,
    yy: u32,
    zz: u32,
    s1: u32,
    r: u32,
) -> bool {
    op_out(f, ScalarOp::Mul, a.x, b.x, xx) && op_out(f, ScalarOp::Mul, a.y, b.y, yy) && op_out(
        f,
        ScalarOp::Mul,
        a.z,
        b.z,
        zz,
    ) && op_out(f, ScalarOp::Add, xx, yy, s1) && op_out(f, ScalarOp::Add, s1, zz, r)
}

/// `r` is a dot product of `a` and `b`: the sum `a.x*b.x + a.y*b.y + a.z*b.z`
/// folded left, with every scalar step an evaluator answer.
pub open spec fn dot_rel<F: Fn(ScalarOp, u32, u32) -> u32>(f: F, a: Vec3, b: Vec3, r: u32) -> bool {
    exists|xx: u32, yy: u32, zz: u32, s1: u32| dot_chain(f, a, b, xx, yy, zz, s1, r)
}

/// Applies `op` componentwise.
pub fn v3_bin<F: Fn(ScalarOp, u32, u32) -> u32 + Copy>(f: F, op: ScalarOp, a: Vec3, b: Vec3) -> (r:
    Vec3)
    requires
        op_ok(f),
    ensures
        bin3(f, op, a, b, r),
{
    Vec3 { x: f(op, a.x, b.x), y: f(op, a.y, b.y), z: f(op, a.z, b.z) }
}

/// Componentwise sum.
pub fn v3_add<F: Fn(ScalarOp, u32, u32) -> u32 + Copy>(f: F, a: Vec3, b: Vec3) -> (r: Vec3)
    requires
        op_ok(f),
    ensures
        bin3(f, ScalarOp::Add, a, b, r),
{
    v3_bin(f, ScalarOp::Add, a, b)
}

/// Componentwise difference.
pub fn v3_sub<F: Fn(ScalarOp, u32, u32) -> u32 + Copy>(f: F, a: Vec3, b: Vec3) -> (r: Vec3)
    requires
        op_ok(f),
    ensures
        bin3(f, ScalarOp::Sub, a, b, r),
{
    v3_bin(f, ScalarOp::Sub, a, b)
}

/// The vector scaled on the right by a scalar.
pub fn v3_scale<F: Fn(ScalarOp, u32, u32) -> u32 + Copy>(f: F, a: Vec3, s: u32) -> (r: Vec3)
    requires
        op_ok(f),
    ensures
        scale3(f, a, s, r),
{
    Vec3 { x: f(ScalarOp::Mul, a.x, s), y: f(ScalarOp::Mul, a.y, s), z: f(ScalarOp::Mul, a.z, s) }
}

/// The vector scaled on the left by a scalar.
pub fn v3_scale_left<F: Fn(ScalarOp, u32, u32) -> u32 + Copy>(f: F, s: u32, a: Vec3) -> (r: Vec3)
    requires
        op_ok(f),
    ensures
        scale3_left(f, s, a, r),
{
    Vec3 { x: f(ScalarOp::Mul, s, a.x), y: f(ScalarOp::Mul, s, a.y), z: f(ScalarOp::Mul, s, a.z) }
}

/// The dot product chain of [`dot_rel`].
pub fn v3_dot<F: Fn(ScalarOp, u32, u32) -> u32 + Copy>(f: F, a: Vec3, b: Vec3) -> (r: u32)
    requires
        op_ok(f),
    ensures
        dot_rel(f, a, b, r),
{
    let xx = f(ScalarOp::Mul, a.x, b.x);
    let yy = f(ScalarOp::Mul, a.y, b.y);
    let zz = f(ScalarOp::Mul, a.z, b.z);
    let s1 = f(ScalarOp::Add, xx, yy);
    let r = f(ScalarOp::Add, s1, zz);
    proof {
        assert(dot_chain(f, a, b, xx, yy, zz, s1, r));
    }
    r
}

} // verus!
