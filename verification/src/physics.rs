//! A toolbox for implementing the update part of a model: particles, the
//! spring, collision and plane-contact force primitives, and a fourth-order
//! Runge-Kutta step over an array of particles with a caller-supplied
//! acceleration function.
//!
//! All scalar arithmetic goes through the caller's evaluator (see
//! [`crate::ops`]); comparisons against zero are decided at the bit level.
//! Each function's contract pins the exact chain of scalar steps the formula
//! takes, so with a genuine binary32 evaluator the functions compute exactly
//! the documented formulas, and the integrator's bookkeeping - lengths,
//! radii carried over, which sample states feed which call - is proved
//! outright.

use vstd::prelude::*;

use crate::fbits::{float_lt, float_gt, lt_bits, gt_bits, negate_bits, neg_of};
use crate::ops::{
    ScalarOp, Vec3, op_ok, op_out, bin3, scale3, scale3_left, dot_rel, sqrt_out, v3_add, v3_sub,
    v3_scale, v3_scale_left, v3_dot,
};

verus! {

/// Bit pattern of the fixed timestep 0.01.
pub const DT_BITS: u32 = 0x3C23_D70A;

/// Bit pattern of 2.0.
pub const TWO_BITS: u32 = 0x4000_0000;

/// Bit pattern of 4.0.
pub const FOUR_BITS: u32 = 0x4080_0000;

/// Bit pattern of 6.0.
pub const SIX_BITS: u32 = 0x40C0_0000;

/// Bit pattern of 1000.0, the rod spring's stiffness.
pub const ROD_STIFFNESS_BITS: u32 = 0x447A_0000;

/// Bit pattern of 10000.0, the elastic collision stiffness.
pub const COLLISION_STIFFNESS_BITS: u32 = 0x461C_4000;

/// Bit pattern of 5000.0, the floor's stiffness.
pub const FLOOR_STIFFNESS_BITS: u32 = 0x459C_4000;

/// Bit pattern of 5.0, the floor's normal damping.
pub const FIVE_BITS: u32 = 0x40A0_0000;

/// Bit pattern of 3.0, the floor's tangential damping.
pub const THREE_BITS: u32 = 0x4040_0000;

/// The zero vector.
pub open spec fn zero3() -> Vec3 {
    Vec3 { x: 0u32, y: 0u32, z: 0u32 }
}

/// A point mass with a position, a velocity and a radius.
#[derive(Clone, Copy, PartialEq, Eq, Structural, Debug)]
pub struct Particle {
    pub pos: Vec3,
    pub vel: Vec3,
    pub radius: u32,
}

impl Particle {
    /// A particle from its parts.
    pub fn new(pos: Vec3, vel: Vec3, radius: u32) -> (r: Particle)
        ensures
            r == (Particle { pos, vel, radius }),
    {
        Particle { pos, vel, radius }
    }
}

impl Default for Particle {
    /// The particle at rest at the origin with radius zero.
    fn default() -> (r: Particle)
        ensures
            r == (Particle { pos: zero3(), vel: zero3(), radius: 0u32 }),
    {
        Particle { pos: Vec3 { x: 0, y: 0, z: 0 }, vel: Vec3 { x: 0, y: 0, z: 0 }, radius: 0 }
    }
}

/// A damped spring with a rest length.
#[derive(Clone, Copy, PartialEq, Eq, Structural, Debug)]
pub struct Spring {
    pub stiffness: u32,
    pub damping: u32,
    pub rest_length: u32,
}

impl Spring {
    /// The stiff rod preset: stiffness 1000, damping 4, rest length 1.
    pub fn unit_rod() -> (r: Spring)
        ensures
            r == (Spring {
                stiffness: ROD_STIFFNESS_BITS,
                damping: FOUR_BITS,
                rest_length: crate::fbits::ONE_BITS,
            }),
    {
        Spring {
            stiffness: ROD_STIFFNESS_BITS,
            damping: FOUR_BITS,
            rest_length: crate::fbits::ONE_BITS,
        }
    }
}

/// A damped contact plane: points with `pos . normal - offset - radius <= 0`
/// are pushed out along the normal and braked tangentially.
#[derive(Clone, Copy, PartialEq, Eq, Structural, Debug)]
pub struct Plane {
    pub normal: Vec3,
    pub offset: u32,
    pub stiffness: u32,
    pub normal_damping: u32,
    pub tangential_damping: u32,
}

impl Plane {
    /// The floor preset: normal +z, offset 0, stiffness 5000, normal damping
    /// 5, tangential damping 3.
    pub fn floor() -> (r: Plane)
        ensures
            r == (Plane {
                normal: Vec3 { x: 0u32, y: 0u32, z: crate::fbits::ONE_BITS },
                offset: 0u32,
                stiffness: FLOOR_STIFFNESS_BITS,
                normal_damping: FIVE_BITS,
                tangential_damping: THREE_BITS,
            }),
    {
        Plane {
            normal: Vec3 { x: 0, y: 0, z: crate::fbits::ONE_BITS },
            offset: 0,
            stiffness: FLOOR_STIFFNESS_BITS,
            normal_damping: FIVE_BITS,
            tangential_damping: THREE_BITS,
        }
    }
}

/// The spring acceleration computation, every intermediate named:
/// relative position, its magnitude, the reciprocal, the radial velocity, the
/// radial force `k*(rest - d) - c*v_r`, and the radial force spread along the
/// relative position.
pub open spec fn spring_chain<F: Fn(ScalarOp, u32, u32) -> u32>(
    f: F,
    p: Particle,
    o: Particle,
    s: Spring,
    rel: Vec3,
    d2: u32,
    dist: u32,
    inv: u32,
    relv: Vec3,
    rv0: u32,
    rv: u32,
    t1: u32,
    t2: u32,
    t3: u32,
    rf: u32,
    sc: u32,
    r: Vec3,
) -> bool {
    &&& bin3(f, ScalarOp::Sub, p.pos, o.pos, rel)
    &&& dot_rel(f, rel, rel, d2)
    &&& sqrt_out(f, d2, dist)
    &&& op_out(f, ScalarOp::Div, crate::fbits::ONE_BITS, dist, inv)
    &&& bin3(f, ScalarOp::Sub, p.vel, o.vel, relv)
    &&& dot_rel(f, relv, rel, rv0)
    &&& op_out(f, ScalarOp::Mul, rv0, inv, rv)
    &&& op_out(f, ScalarOp::Sub, s.rest_length, dist, t1)
    &&& op_out(f, ScalarOp::Mul, s.stiffness, t1, t2)
    &&& op_out(f, ScalarOp::Mul, s.damping, rv, t3)
    &&& op_out(f, ScalarOp::Sub, t2, t3, rf)
    &&& op_out(f, ScalarOp::Mul, rf, inv, sc)
    &&& scale3_left(f, sc, rel, r)
}

/// `r` is a spring acceleration the evaluator can derive for `p` against `o`.
pub open spec fn spring_accel_rel<F: Fn(ScalarOp, u32, u32) -> u32>(
    f: F,
    p: Particle,
    o: Particle,
    s: Spring,
    r: Vec3,
) -> bool {
    exists|
        rel: Vec3,
        d2: u32,
        dist: u32,
        inv: u32,
        relv: Vec3,
        rv0: u32,
        rv: u32,
        t1: u32,
        t2: u32,
        t3: u32,
        rf: u32,
        sc: u32,
    |
        #[trigger] spring_chain(f, p, o, s, rel, d2, dist, inv, relv, rv0, rv, t1, t2, t3, rf, sc, r)
}

impl Particle {
    /// The acceleration a spring to `other` exerts on `self`: radial force
    /// `k*(rest - |dp|) - c*(dv.dp)/|dp|`, spread along `dp`.
    pub fn accel_from_spring_to<F: Fn(ScalarOp, u32, u32) -> u32 + Copy>(
        &self,
        f: F,
        other: &Particle,
        spring: &Spring,
    ) -> (r: Vec3)
        requires
            op_ok(f),
        ensures
            spring_accel_rel(f, *self, *other, *spring, r),
    {
        let rel = v3_sub(f, self.pos, other.pos);
        let d2 = v3_dot(f, rel, rel);
        let dist = f(ScalarOp::Sqrt, d2, 0);
        let inv = f(ScalarOp::Div, crate::fbits::ONE_BITS, dist);
        let relv = v3_sub(f, self.vel, other.vel);
        let rv0 = v3_dot(f, relv, rel);
        let rv = f(ScalarOp::Mul, rv0, inv);
        let t1 = f(ScalarOp::Sub, spring.rest_length, dist);
        let t2 = f(ScalarOp::Mul, spring.stiffness, t1);
        let t3 = f(ScalarOp::Mul, spring.damping, rv);
        let rf = f(ScalarOp::Sub, t2, t3);
        let sc = f(ScalarOp::Mul, rf, inv);
        let r = v3_scale_left(f, sc, rel);
        proof {
            assert(spring_chain(
                f,
                *self,
                *other,
                *spring,
                rel,
                d2,
                dist,
                inv,
                relv,
                rv0,
                rv,
                t1,
                t2,
                t3,
                rf,
                sc,
                r,
            ));
        }
        r
    }
}

/// The elastic collision computation. The penetration is
/// `r1 + r2 - |dp|`; when it denotes a negative number the result is the zero
/// vector, otherwise `dp` scaled by `pen*K - (dv.normalize(dp))*D` with
/// `K = 10000` and `D = 1`. The normalization recomputes the magnitude, as
/// the formula spells it.
pub open spec fn collision_chain<F: Fn(ScalarOp, u32, u32) -> u32>(
    f: F,
    p: Particle,
    o: Particle,
    rel: Vec3,
    d2: u32,
    dist: u32,
    t1: u32,
    pen: u32,
    d2b: u32,
    distb: u32,
    inv: u32,
    nrm: Vec3,
    relv: Vec3,
    rnv: u32,
    t2: u32,
    t3: u32,
    t4: u32,
    r: Vec3,
) -> bool {
    &&& bin3(f, ScalarOp::Sub, p.pos, o.pos, rel)
    &&& dot_rel(f, rel, rel, d2)
    &&& sqrt_out(f, d2, dist)
    &&& op_out(f, ScalarOp::Add, p.radius, o.radius, t1)
    &&& op_out(f, ScalarOp::Sub, t1, dist, pen)
    &&& (float_lt(pen, 0u32) ==> r == zero3())
    &&& (!float_lt(pen, 0u32) ==> {
        &&& dot_rel(f, rel, rel, d2b)
        &&& sqrt_out(f, d2b, distb)
        &&& op_out(f, ScalarOp::Div, crate::fbits::ONE_BITS, distb, inv)
        &&& scale3(f, rel, inv, nrm)
        &&& bin3(f, ScalarOp::Sub, p.vel, o.vel, relv)
        &&& dot_rel(f, relv, nrm, rnv)
        &&& op_out(f, ScalarOp::Mul, pen, COLLISION_STIFFNESS_BITS, t2)
        &&& op_out(f, ScalarOp::Mul, rnv, crate::fbits::ONE_BITS, t3)
        &&& op_out(f, ScalarOp::Sub, t2, t3, t4)
        &&& scale3(f, rel, t4, r)
    })
}

/// `r` is a collision acceleration the evaluator can derive for `p` against
/// `o`: zero whenever the penetration comes out negative.
pub open spec fn collision_accel_rel<F: Fn(ScalarOp, u32, u32) -> u32>(
    f: F,
    p: Particle,
    o: Particle,
    r: Vec3,
) -> bool {
    exists|
        rel: Vec3,
        d2: u32,
        dist: u32,
        t1: u32,
        pen: u32,
        d2b: u32,
        distb: u32,
        inv: u32,
        nrm: Vec3,
        relv: Vec3,
        rnv: u32,
        t2: u32,
        t3: u32,
        t4: u32,
    |
        #[trigger] collision_chain(
            f,
            p,
            o,
            rel,
            d2,
            dist,
            t1,
            pen,
            d2b,
            distb,
            inv,
            nrm,
            relv,
            rnv,
            t2,
            t3,
            t4,
            r,
        )
}

impl Particle {
    /// The acceleration an elastic collision with `other` exerts on `self`;
    /// zero when the spheres do not touch.
    pub fn accel_from_collision_with<F: Fn(ScalarOp, u32, u32) -> u32 + Copy>(
        &self,
        f: F,
        other: &Particle,
    ) -> (r: Vec3)
        requires
            op_ok(f),
        ensures
            collision_accel_rel(f, *self, *other, r),
    {
        let rel = v3_sub(f, self.pos, other.pos);
        let d2 = v3_dot(f, rel, rel);
        let dist = f(ScalarOp::Sqrt, d2, 0);
        let t1 = f(ScalarOp::Add, self.radius, other.radius);
        let pen = f(ScalarOp::Sub, t1, dist);
        if lt_bits(pen, 0) {
            let r = Vec3 { x: 0, y: 0, z: 0 };
            proof {
                assert(collision_chain(
                    f,
                    *self,
                    *other,
                    rel,
                    d2,
                    dist,
                    t1,
                    pen,
                    0u32,
                    0u32,
                    0u32,
                    zero3(),
                    zero3(),
                    0u32,
                    0u32,
                    0u32,
                    0u32,
                    r,
                ));
            }
            r
        } else {
            let d2b = v3_dot(f, rel, rel);
            let distb = f(ScalarOp::Sqrt, d2b, 0);
            let inv = f(ScalarOp::Div, crate::fbits::ONE_BITS, distb);
            let nrm = v3_scale(f, rel, inv);
            let relv = v3_sub(f, self.vel, other.vel);
            let rnv = v3_dot(f, relv, nrm);
            let t2 = f(ScalarOp::Mul, pen, COLLISION_STIFFNESS_BITS);
            let t3 = f(ScalarOp::Mul, rnv, crate::fbits::ONE_BITS);
            let t4 = f(ScalarOp::Sub, t2, t3);
            let r = v3_scale(f, rel, t4);
            proof {
                assert(collision_chain(
                    f,
                    *self,
                    *other,
                    rel,
                    d2,
                    dist,
                    t1,
                    pen,
                    d2b,
                    distb,
                    inv,
                    nrm,
                    relv,
                    rnv,
                    t2,
                    t3,
                    t4,
                    r,
                ));
            }
            r
        }
    }
}

/// The plane contact computation. The signed distance is
/// `pos . normal - offset - radius`; when it denotes a positive number the
/// result is the zero vector, otherwise the normal is scaled by
/// `-k*s - c_n*v_n` and the tangential velocity braked by `-c_t`.
pub open spec fn plane_chain<F: Fn(ScalarOp, u32, u32) -> u32>(
    f: F,
    pl: Plane,
    p: Particle,
    d0: u32,
    t1: u32,
    sd: u32,
    nv: u32,
    sn: Vec3,
    tv: Vec3,
    a1: u32,
    a2: u32,
    nf: u32,
    m: Vec3,
    tf: Vec3,
    r: Vec3,
) -> bool {
    &&& dot_rel(f, p.pos, pl.normal, d0)
    &&& op_out(f, ScalarOp::Sub, d0, pl.offset, t1)
    &&& op_out(f, ScalarOp::Sub, t1, p.radius, sd)
    &&& (float_gt(sd, 0u32) ==> r == zero3())
    &&& (!float_gt(sd, 0u32) ==> {
        &&& dot_rel(f, p.vel, pl.normal, nv)
        &&& scale3(f, pl.normal, nv, sn)
        &&& bin3(f, ScalarOp::Sub, p.vel, sn, tv)
        &&& op_out(f, ScalarOp::Mul, neg_of(pl.stiffness), sd, a1)
        &&& op_out(f, ScalarOp::Mul, nv, pl.normal_damping, a2)
        &&& op_out(f, ScalarOp::Sub, a1, a2, nf)
        &&& scale3(f, pl.normal, nf, m)
        &&& scale3_left(f, neg_of(pl.tangential_damping), tv, tf)
        &&& bin3(f, ScalarOp::Add, m, tf, r)
    })
}

/// `r` is a contact acceleration the evaluator can derive for `p` against the
/// plane: zero whenever the particle clears the plane.
pub open spec fn plane_accel_rel<F: Fn(ScalarOp, u32, u32) -> u32>(
    f: F,
    pl: Plane,
    p: Particle,
    r: Vec3,
) -> bool {
    exists|
        d0: u32,
        t1: u32,
        sd: u32,
        nv: u32,
        sn: Vec3,
        tv: Vec3,
        a1: u32,
        a2: u32,
        nf: u32,
        m: Vec3,
        tf: Vec3,
    |
        #[trigger] plane_chain(f, pl, p, d0, t1, sd, nv, sn, tv, a1, a2, nf, m, tf, r)
}

impl Plane {
    /// The acceleration the plane exerts on a particle; zero when the
    /// particle's sphere clears the plane.
    pub fn collide_with<F: Fn(ScalarOp, u32, u32) -> u32 + Copy>(&self, f: F, particle: &Particle)
        -> (r: Vec3)
        requires
            op_ok(f),
        ensures
            plane_accel_rel(f, *self, *particle, r),
    {
        let d0 = v3_dot(f, particle.pos, self.normal);
        let t1 = f(ScalarOp::Sub, d0, self.offset);
        let sd = f(ScalarOp::Sub, t1, particle.radius);
        if gt_bits(sd, 0) {
            let r = Vec3 { x: 0, y: 0, z: 0 };
            proof {
                assert(plane_chain(
                    f,
                    *self,
                    *particle,
                    d0,
                    t1,
                    sd,
                    0u32,
                    zero3(),
                    zero3(),
                    0u32,
                    0u32,
                    0u32,
                    zero3(),
                    zero3(),
                    r,
                ));
            }
            r
        } else {
            let nv = v3_dot(f, particle.vel, self.normal);
            let sn = v3_scale(f, self.normal, nv);
            let tv = v3_sub(f, particle.vel, sn);
            let a1 = f(ScalarOp::Mul, negate_bits(self.stiffness), sd);
            let a2 = f(ScalarOp::Mul, nv, self.normal_damping);
            let nf = f(ScalarOp::Sub, a1, a2);
            let m = v3_scale(f, self.normal, nf);
            let tf = v3_scale_left(f, negate_bits(self.tangential_damping), tv);
            let r = v3_add(f, m, tf);
            proof {
                assert(plane_chain(
                    f,
                    *self,
                    *particle,
                    d0,
                    t1,
                    sd,
                    nv,
                    sn,
                    tv,
                    a1,
                    a2,
                    nf,
                    m,
                    tf,
                    r,
                ));
            }
            r
        }
    }
}

} // verus!

verus! {

/// Rejections of [`time_step_with_rk4`].
#[derive(Clone, Copy, PartialEq, Eq, Structural, Debug)]
pub enum PhysicsError {
    /// The acceleration function returned a list whose length differs from
    /// the particle count: a fatal modeling error.
    AccelerationCountMismatch,
}

/// The acceleration function accepts any particle list.
pub open spec fn accels_ok<T, FA: Fn(Vec<Particle>, &T) -> Vec<Vec3>>(fa: FA, extra: &T) -> bool {
    forall|ps: Vec<Particle>| #[trigger] call_requires(fa, (ps, extra))
}

/// One particle of a half-step sample state: position advanced along the
/// source velocity, velocity advanced along the sampled acceleration, both
/// scaled by `h`; sample particles carry the default radius 0.
pub open spec fn stage_chain<F: Fn(ScalarOp, u32, u32) -> u32>(
    f: F,
    old: Particle,
    velsrc: Particle,
    a: Vec3,
    h: u32,
    pv: Vec3,
    av: Vec3,
    w: Particle,
) -> bool {
    &&& scale3(f, velsrc.vel, h, pv)
    &&& scale3(f, a, h, av)
    &&& bin3(f, ScalarOp::Add, old.pos, pv, w.pos)
    &&& bin3(f, ScalarOp::Add, old.vel, av, w.vel)
    &&& w.radius == 0u32
}

/// `w` is a sample particle the evaluator can derive.
pub open spec fn stage_one<F: Fn(ScalarOp, u32, u32) -> u32>(
    f: F,
    old: Particle,
    velsrc: Particle,
    a: Vec3,
    h: u32,
    w: Particle,
) -> bool {
    exists|pv: Vec3, av: Vec3| #[trigger] stage_chain(f, old, velsrc, a, h, pv, av, w)
}

/// `w` is a whole sample state: one sample particle per input particle.
pub open spec fn stage_rel<F: Fn(ScalarOp, u32, u32) -> u32>(
    f: F,
    old: Seq<Particle>,
    velsrc: Seq<Particle>,
    a: Seq<Vec3>,
    h: u32,
    w: Seq<Particle>,
) -> bool {
    &&& w.len() == old.len()
    &&& forall|i: int| 0 <= i < old.len() ==> stage_one(f, old[i], velsrc[i], a[i], h, #[trigger] w[i])
}

/// One particle of the final combination:
/// `pos' = pos + vel*dt + (a0+a1+a2)*k4` and
/// `vel' = vel + ((a0+a1+a2) + (a1+a2+a3))*h6`, radius carried over.
pub open spec fn final_chain<F: Fn(ScalarOp, u32, u32) -> u32>(
    f: F,
    old: Particle,
    a0: Vec3,
    a1: Vec3,
    a2: Vec3,
    a3: Vec3,
    k4: u32,
    h6: u32,
    a01: Vec3,
    a012: Vec3,
    a12: Vec3,
    a123: Vec3,
    vdt: Vec3,
    p1: Vec3,
    pk: Vec3,
    s: Vec3,
    sv: Vec3,
    w: Particle,
) -> bool {
    &&& bin3(f, ScalarOp::Add, a0, a1, a01)
    &&& bin3(f, ScalarOp::Add, a01, a2, a012)
    &&& bin3(f, ScalarOp::Add, a1, a2, a12)
    &&& bin3(f, ScalarOp::Add, a12, a3, a123)
    &&& scale3(f, old.vel, DT_BITS, vdt)
    &&& bin3(f, ScalarOp::Add, old.pos, vdt, p1)
    &&& scale3(f, a012, k4, pk)
    &&& bin3(f, ScalarOp::Add, p1, pk, w.pos)
    &&& bin3(f, ScalarOp::Add, a012, a123, s)
    &&& scale3(f, s, h6, sv)
    &&& bin3(f, ScalarOp::Add, old.vel, sv, w.vel)
    &&& w.radius == old.radius
}

/// `w` is a final particle the evaluator can derive from the four samples.
pub open spec fn final_one<F: Fn(ScalarOp, u32, u32) -> u32>(
    f: F,
    old: Particle,
    a0: Vec3,
    a1: Vec3,
    a2: Vec3,
    a3: Vec3,
    k4: u32,
    h6: u32,
    w: Particle,
) -> bool {
    exists|a01: Vec3, a012: Vec3, a12: Vec3, a123: Vec3, vdt: Vec3, p1: Vec3, pk: Vec3, s: Vec3, sv: Vec3|
        #[trigger] final_chain(f, old, a0, a1, a2, a3, k4, h6, a01, a012, a12, a123, vdt, p1, pk, s, sv, w)
}

/// The final combination of a whole state.
pub open spec fn final_rel<F: Fn(ScalarOp, u32, u32) -> u32>(
    f: F,
    old: Seq<Particle>,
    a0s: Seq<Vec3>,
    a1s: Seq<Vec3>,
    a2s: Seq<Vec3>,
    a3s: Seq<Vec3>,
    k4: u32,
    h6: u32,
    w: Seq<Particle>,
) -> bool {
    &&& w.len() == old.len()
    &&& forall|i: int|
        0 <= i < old.len() ==> final_one(
            f,
            old[i],
            a0s[i],
            a1s[i],
            a2s[i],
            a3s[i],
            k4,
            h6,
            #[trigger] w[i],
        )
}

/// The whole step: the four acceleration samples `a0s..a3s` are answers of
/// the acceleration function at the documented sample states (`base`,
/// `c1..c3` are the argument lists of those calls), the step constants come
/// from the evaluator, and the result combines them.
pub open spec fn rk4_chain<
    T,
    FA: Fn(Vec<Particle>, &T) -> Vec<Vec3>,
    F: Fn(ScalarOp, u32, u32) -> u32,
>(
    f: F,
    fa: FA,
    extra: &T,
    ps: Seq<Particle>,
    base: Vec<Particle>,
    a0s: Vec<Vec3>,
    c1: Vec<Particle>,
    a1s: Vec<Vec3>,
    c2: Vec<Particle>,
    a2s: Vec<Vec3>,
    c3: Vec<Particle>,
    a3s: Vec<Vec3>,
    h2: u32,
    k1: u32,
    k4: u32,
    h6: u32,
    r: Seq<Particle>,
) -> bool {
    &&& base@ == ps
    &&& call_ensures(fa, (base, extra), a0s)
    &&& a0s@.len() == ps.len()
    &&& op_out(f, ScalarOp::Div, DT_BITS, TWO_BITS, h2)
    &&& stage_rel(f, ps, ps, a0s@, h2, c1@)
    &&& call_ensures(fa, (c1, extra), a1s)
    &&& a1s@.len() == ps.len()
    &&& stage_rel(f, ps, c1@, a1s@, h2, c2@)
    &&& call_ensures(fa, (c2, extra), a2s)
    &&& a2s@.len() == ps.len()
    &&& stage_rel(f, ps, c2@, a2s@, DT_BITS, c3@)
    &&& call_ensures(fa, (c3, extra), a3s)
    &&& a3s@.len() == ps.len()
    &&& op_out(f, ScalarOp::Mul, DT_BITS, DT_BITS, k1)
    &&& op_out(f, ScalarOp::Div, k1, FOUR_BITS, k4)
    &&& op_out(f, ScalarOp::Div, DT_BITS, SIX_BITS, h6)
    &&& final_rel(f, ps, a0s@, a1s@, a2s@, a3s@, k4, h6, r)
}

/// `r` is a fourth-order Runge-Kutta step of `ps` that the evaluator and the
/// acceleration function can derive together.
pub open spec fn rk4_rel<
    T,
    FA: Fn(Vec<Particle>, &T) -> Vec<Vec3>,
    F: Fn(ScalarOp, u32, u32) -> u32,
>(f: F, fa: FA, extra: &T, ps: Seq<Particle>, r: Seq<Particle>) -> bool {
    exists|
        base: Vec<Particle>,
        a0s: Vec<Vec3>,
        c1: Vec<Particle>,
        a1s: Vec<Vec3>,
        c2: Vec<Particle>,
        a2s: Vec<Vec3>,
        c3: Vec<Particle>,
        a3s: Vec<Vec3>,
        h2: u32,
        k1: u32,
        k4: u32,
        h6: u32,
    |
        #[trigger] rk4_chain(
            f,
            fa,
            extra,
            ps,
            base,
            a0s,
            c1,
            a1s,
            c2,
            a2s,
            c3,
            a3s,
            h2,
            k1,
            k4,
            h6,
            r,
        )
}

/// Whatever the evaluator and the acceleration function answered, a step
/// related to its input by [`rk4_rel`] has one output particle per input and
/// carries every radius over unchanged.
pub proof fn lemma_rk4_keeps_radii<
    T,
    FA: Fn(Vec<Particle>, &T) -> Vec<Vec3>,
    F: Fn(ScalarOp, u32, u32) -> u32,
>(f: F, fa: FA, extra: &T, ps: Seq<Particle>, r: Seq<Particle>)
    requires
        rk4_rel(f, fa, extra, ps, r),
    ensures
        r.len() == ps.len(),
        forall|i: int| 0 <= i < ps.len() ==> r[i].radius == ps[i].radius,
{
    let (base, a0s, c1, a1s, c2, a2s, c3, a3s, h2, k1, k4, h6) = choose|
        base: Vec<Particle>,
        a0s: Vec<Vec3>,
        c1: Vec<Particle>,
        a1s: Vec<Vec3>,
        c2: Vec<Particle>,
        a2s: Vec<Vec3>,
        c3: Vec<Particle>,
        a3s: Vec<Vec3>,
        h2: u32,
        k1: u32,
        k4: u32,
        h6: u32,
    |
        #[trigger] rk4_chain(f, fa, extra, ps, base, a0s, c1, a1s, c2, a2s, c3, a3s, h2, k1, k4, h6, r);
    assert forall|i: int| 0 <= i < ps.len() implies r[i].radius == ps[i].radius by {
        assert(final_one(f, ps[i], a0s@[i], a1s@[i], a2s@[i], a3s@[i], k4, h6, r[i]));
        let (a01, a012, a12, a123, vdt, p1, pk, s, sv) = choose|
            a01: Vec3,
            a012: Vec3,
            a12: Vec3,
            a123: Vec3,
            vdt: Vec3,
            p1: Vec3,
            pk: Vec3,
            s: Vec3,
            sv: Vec3,
        |
            #[trigger] final_chain(
                f,
                ps[i],
                a0s@[i],
                a1s@[i],
                a2s@[i],
                a3s@[i],
                k4,
                h6,
                a01,
                a012,
                a12,
                a123,
                vdt,
                p1,
                pk,
                s,
                sv,
                r[i],
            );
    }
}

/// A fresh list with the same particles.
fn copy_particles(ps: &Vec<Particle>) -> (r: Vec<Particle>)
    ensures
        r@ == ps@,
{
    let mut r: Vec<Particle> = Vec::new();
    let mut i: usize = 0;
    while i < ps.len()
        invariant
            i <= ps@.len(),
            r@ =~= ps@.subrange(0, i as int),
        decreases ps@.len() - i,
    {
        r.push(ps[i]);
        i = i + 1;
    }
    proof {
        assert(r@ =~= ps@);
    }
    r
}

/// One half- or full-step sample state.
fn stage<F: Fn(ScalarOp, u32, u32) -> u32 + Copy>(
    f: F,
    old: &Vec<Particle>,
    velsrc: &Vec<Particle>,
    accels: &Vec<Vec3>,
    h: u32,
) -> (w: Vec<Particle>)
    requires
        op_ok(f),
        velsrc@.len() == old@.len(),
        accels@.len() == old@.len(),
    ensures
        stage_rel(f, old@, velsrc@, accels@, h, w@),
{
    let mut w: Vec<Particle> = Vec::new();
    let mut i: usize = 0;
    while i < old.len()
        invariant
            op_ok(f),
            velsrc@.len() == old@.len(),
            accels@.len() == old@.len(),
            i <= old@.len(),
            w@.len() == i,
            forall|k: int|
                0 <= k < i ==> stage_one(f, old@[k], velsrc@[k], accels@[k], h, #[trigger] w@[k]),
        decreases old@.len() - i,
    {
        let pv = v3_scale(f, velsrc[i].vel, h);
        let av = v3_scale(f, accels[i], h);
        let pos = v3_add(f, old[i].pos, pv);
        let vel = v3_add(f, old[i].vel, av);
        let p = Particle { pos, vel, radius: 0 };
        proof {
            assert(stage_chain(f, old@[i as int], velsrc@[i as int], accels@[i as int], h, pv, av, p));
        }
        w.push(p);
        i = i + 1;
    }
    w
}

/// The final combination state.
fn combine<F: Fn(ScalarOp, u32, u32) -> u32 + Copy>(
    f: F,
    old: &Vec<Particle>,
    a0s: &Vec<Vec3>,
    a1s: &Vec<Vec3>,
    a2s: &Vec<Vec3>,
    a3s: &Vec<Vec3>,
    k4: u32,
    h6: u32,
) -> (w: Vec<Particle>)
    requires
        op_ok(f),
        a0s@.len() == old@.len(),
        a1s@.len() == old@.len(),
        a2s@.len() == old@.len(),
        a3s@.len() == old@.len(),
    ensures
        final_rel(f, old@, a0s@, a1s@, a2s@, a3s@, k4, h6, w@),
{
    let mut w: Vec<Particle> = Vec::new();
    let mut i: usize = 0;
    while i < old.len()
        invariant
            op_ok(f),
            a0s@.len() == old@.len(),
            a1s@.len() == old@.len(),
            a2s@.len() == old@.len(),
            a3s@.len() == old@.len(),
            i <= old@.len(),
            w@.len() == i,
            forall|k: int|
                0 <= k < i ==> final_one(
                    f,
                    old@[k],
                    a0s@[k],
                    a1s@[k],
                    a2s@[k],
                    a3s@[k],
                    k4,
                    h6,
                    #[trigger] w@[k],
                ),
        decreases old@.len() - i,
    {
        let a01 = v3_add(f, a0s[i], a1s[i]);
        let a012 = v3_add(f, a01, a2s[i]);
        let a12 = v3_add(f, a1s[i], a2s[i]);
        let a123 = v3_add(f, a12, a3s[i]);
        let vdt = v3_scale(f, old[i].vel, DT_BITS);
        let p1 = v3_add(f, old[i].pos, vdt);
        let pk = v3_scale(f, a012, k4);
        let pos = v3_add(f, p1, pk);
        let s = v3_add(f, a012, a123);
        let sv = v3_scale(f, s, h6);
        let vel = v3_add(f, old[i].vel, sv);
        let p = Particle { pos, vel, radius: old[i].radius };
        proof {
            assert(final_chain(
                f,
                old@[i as int],
                a0s@[i as int],
                a1s@[i as int],
                a2s@[i as int],
                a3s@[i as int],
                k4,
                h6,
                a01,
                a012,
                a12,
                a123,
                vdt,
                p1,
                pk,
                s,
                sv,
                p,
            ));
        }
        w.push(p);
        i = i + 1;
    }
    w
}

/// Advances the particles by one fixed timestep `DT = 0.01` of fourth-order
/// Runge-Kutta integration.
///
/// `accelerations` is called on four sample states - the input, two
/// half-steps and one full step, the samples carrying radius 0 - and must
/// answer one acceleration per particle; a mismatched count is the fatal
/// modeling error [`PhysicsError::AccelerationCountMismatch`]. On success the
/// result has one particle per input, radii carried over, positions and
/// velocities the documented Runge-Kutta combination of the four samples.
pub fn time_step_with_rk4<
    T,
    FA: Fn(Vec<Particle>, &T) -> Vec<Vec3>,
    F: Fn(ScalarOp, u32, u32) -> u32 + Copy,
>(particles: &Vec<Particle>, extra_state: &T, accelerations: FA, f: F) -> (r: Result<
    Vec<Particle>,
    PhysicsError,
>)
    requires
        op_ok(f),
        accels_ok(accelerations, extra_state),
    ensures
        r is Ok ==> r.unwrap()@.len() == particles@.len() && rk4_rel(
            f,
            accelerations,
            extra_state,
            particles@,
            r.unwrap()@,
        ),
        r is Err ==> r.unwrap_err() == PhysicsError::AccelerationCountMismatch && exists|
            v: Vec<Particle>,
            out: Vec<Vec3>,
        |
            #[trigger] call_ensures(accelerations, (v, extra_state), out) && out@.len()
                != particles@.len(),
{
    let n = particles.len();
    let h2 = f(ScalarOp::Div, DT_BITS, TWO_BITS);

    let base = copy_particles(particles);
    let ghost gbase = base;
    let a0s = accelerations(base, extra_state);
    if a0s.len() != n {
        return Err(PhysicsError::AccelerationCountMismatch);
    }
    let w1 = stage(f, particles, particles, &a0s, h2);

    let c1 = copy_particles(&w1);
    let ghost gc1 = c1;
    let a1s = accelerations(c1, extra_state);
    if a1s.len() != n {
        return Err(PhysicsError::AccelerationCountMismatch);
    }
    let w2 = stage(f, particles, &w1, &a1s, h2);

    let c2 = copy_particles(&w2);
    let ghost gc2 = c2;
    let a2s = accelerations(c2, extra_state);
    if a2s.len() != n {
        return Err(PhysicsError::AccelerationCountMismatch);
    }
    let w3 = stage(f, particles, &w2, &a2s, DT_BITS);

    let c3 = copy_particles(&w3);
    let ghost gc3 = c3;
    let a3s = accelerations(c3, extra_state);
    if a3s.len() != n {
        return Err(PhysicsError::AccelerationCountMismatch);
    }

    let k1 = f(ScalarOp::Mul, DT_BITS, DT_BITS);
    let k4 = f(ScalarOp::Div, k1, FOUR_BITS);
    let h6 = f(ScalarOp::Div, DT_BITS, SIX_BITS);
    let out = combine(f, particles, &a0s, &a1s, &a2s, &a3s, k4, h6);
    proof {
        assert(rk4_chain(
            f,
            accelerations,
            extra_state,
            particles@,
            gbase,
            a0s,
            gc1,
            a1s,
            gc2,
            a2s,
            gc3,
            a3s,
            h2,
            k1,
            k4,
            h6,
            out@,
        ));
    }
    Ok(out)
}

} // verus!
