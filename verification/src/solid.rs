//! The graphical primitive. A solid can represent any affine transformation of
//! a sphere, cylinder or cube.
//!
//! A solid is a 4x4 column-major matrix of binary32 bit patterns holding the
//! world-to-local transform, whose fourth row is repurposed: the first three
//! entries carry the rgb color and the last one the kind discriminant, so that
//! the GPU receives one 64-byte record per solid.

use vstd::prelude::*;

use crate::fbits::{
    float_eq, is_finite_bits, mag_of, neg_of, ONE_BITS, fmax, finite_bits, eq_bits, abs_bits,
    max_bits, total_le_bits,
};
use crate::ops::{ScalarOp, Vec3, op_ok, op_out, dot_rel, bin3, sqrt_out, v3_dot, v3_bin};

verus! {

/// Bit pattern of 1.0, the kind discriminant of a sphere.
pub const KIND_SPHERE_BITS: u32 = 0x3F80_0000;

/// Bit pattern of 2.0, the kind discriminant of a cylinder.
pub const KIND_CYLINDER_BITS: u32 = 0x4000_0000;

/// Bit pattern of 4.0, the kind discriminant of a cube.
pub const KIND_CUBE_BITS: u32 = 0x4080_0000;

/// The primitive a solid's matrix is applied to.
#[derive(Clone, Copy, PartialEq, Eq, Structural, Debug)]
pub enum SolidKind {
    Sphere,
    Cylinder,
    Cube,
}

/// The discriminant pattern of each kind: the bits of 1.0, 2.0 and 4.0.
pub open spec fn kind_bits(k: SolidKind) -> u32 {
    match k {
        SolidKind::Sphere => KIND_SPHERE_BITS,
        SolidKind::Cylinder => KIND_CYLINDER_BITS,
        SolidKind::Cube => KIND_CUBE_BITS,
    }
}

/// Reads a kind back from its discriminant pattern. Only the three exact
/// patterns of [`kind_bits`] decode; everything else is `None`.
pub open spec fn kind_of_bits(b: u32) -> Option<SolidKind> {
    if b == KIND_SPHERE_BITS {
        Some(SolidKind::Sphere)
    } else if b == KIND_CYLINDER_BITS {
        Some(SolidKind::Cylinder)
    } else if b == KIND_CUBE_BITS {
        Some(SolidKind::Cube)
    } else {
        None
    }
}

impl SolidKind {
    /// The discriminant as the bit pattern of 1.0, 2.0 or 4.0.
    pub fn to_float_bits(self) -> (r: u32)
        ensures
            r == kind_bits(self),
    {
        match self {
            SolidKind::Sphere => KIND_SPHERE_BITS,
            SolidKind::Cylinder => KIND_CYLINDER_BITS,
            SolidKind::Cube => KIND_CUBE_BITS,
        }
    }

    /// Decodes a discriminant pattern; `None` on any pattern that is not
    /// exactly one of the three legal discriminants.
    pub fn from_float_bits(b: u32) -> (r: Option<SolidKind>)
        ensures
            r == kind_of_bits(b),
    {
        if b == KIND_SPHERE_BITS {
            Some(SolidKind::Sphere)
        } else if b == KIND_CYLINDER_BITS {
            Some(SolidKind::Cylinder)
        } else if b == KIND_CUBE_BITS {
            Some(SolidKind::Cube)
        } else {
            None
        }
    }
}

/// An axis-aligned bounding box: componentwise minimum and maximum corners.
#[derive(Clone, Copy, PartialEq, Eq, Structural, Debug)]
pub struct Aabb {
    pub min: Vec3,
    pub max: Vec3,
}

impl Aabb {
    /// All six coordinates denote finite numbers.
    pub open spec fn is_finite(self) -> bool {
        self.min.is_finite() && self.max.is_finite()
    }
}

/// Rejections of [`Solid::new`].
#[derive(Clone, Copy, PartialEq, Eq, Structural, Debug)]
pub enum SolidError {
    /// The last row of the world-to-local matrix is not (0, 0, 0, 1), so the
    /// matrix is no affine transform.
    LastRowNotAffine,
}

/// The last row of the column-major matrix denotes (0, 0, 0, 1): the entries
/// at indices 3, 7 and 11 denote zero and the entry at 15 denotes one.
pub open spec fn affine_last_row(m: Seq<u32>) -> bool {
    float_eq(m[3], 0u32) && float_eq(m[7], 0u32) && float_eq(m[11], 0u32) && float_eq(
        m[15],
        ONE_BITS,
    )
}

/// The matrix with color and kind packed into its last row.
pub open spec fn packed_matrix(m: Seq<u32>, color: Vec3, kind: SolidKind) -> Seq<u32> {
    m.update(3, color.x).update(7, color.y).update(11, color.z).update(15, kind_bits(kind))
}

/// All sixteen entries denote finite numbers.
pub open spec fn matrix_finite(m: Seq<u32>) -> bool {
    forall|i: int| 0 <= i < 16 ==> is_finite_bits(#[trigger] m[i])
}

// The memory representation, column-major:
// [--- --- --- color.r
//  --- --- --- color.g
//  --- --- --- color.b
//  --- --- --- kind   ]
// where the first three rows and the (overwritten) fourth row form the
// world-to-local matrix.
#[derive(Clone, Copy, Debug)]
pub struct Solid {
    m: [u32; 16],
}

impl Solid {
    /// The sixteen packed matrix entries, column-major; the view of the solid.
    pub closed spec fn view_m(self) -> Seq<u32> {
        self.m@
    }

    /// Packs a world-to-local matrix, a color and a kind into a solid.
    ///
    /// Rejected when the matrix's last row does not denote (0, 0, 0, 1): then
    /// it is no affine world-to-local transform. The caller is responsible
    /// for handing in an invertible matrix; singular or non-finite matrices
    /// are reported when a scene is assembled.
    pub fn new(world_to_local: &[u32; 16], color: Vec3, kind: SolidKind) -> (r: Result<
        Solid,
        SolidError,
    >)
        ensures
            r is Ok <==> affine_last_row(world_to_local@),
            r is Ok ==> r.unwrap().view_m() == packed_matrix(world_to_local@, color, kind),
            r is Err ==> r.unwrap_err() == SolidError::LastRowNotAffine,
    {
        let w = *world_to_local;
        let affine = eq_bits(w[3], 0) && eq_bits(w[7], 0) && eq_bits(w[11], 0) && eq_bits(
            w[15],
            ONE_BITS,
        );
        if !affine {
            return Err(SolidError::LastRowNotAffine);
        }
        let s = Solid {
            m: [
                w[0],
                w[1],
                w[2],
                color.x,
                w[4],
                w[5],
                w[6],
                color.y,
                w[8],
                w[9],
                w[10],
                color.z,
                w[12],
                w[13],
                w[14],
                kind.to_float_bits(),
            ],
        };
        proof {
            assert(s.view_m() =~= packed_matrix(world_to_local@, color, kind));
        }
        Ok(s)
    }

    /// The packed entries as plain words, for uploading or inspection.
    pub fn words(&self) -> (r: [u32; 16])
        ensures
            r@ == self.view_m(),
    {
        self.m
    }

    /// The kind stored in the discriminant slot; `None` if the slot holds
    /// anything but a legal discriminant (possible only for solids built from
    /// a tampered word array, never for the constructors' results).
    pub fn kind(&self) -> (r: Option<SolidKind>)
        ensures
            r == kind_of_bits(self.view_m()[15]),
    {
        SolidKind::from_float_bits(self.m[15])
    }

    /// The world-to-local matrix with the packed slots restored to (0, 0, 0, 1).
    pub fn world_to_local(&self) -> (r: [u32; 16])
        ensures
            r@ == self.view_m().update(3, 0u32).update(7, 0u32).update(11, 0u32).update(
                15,
                ONE_BITS,
            ),
    {
        let w = self.m;
        let r = [
            w[0],
            w[1],
            w[2],
            0u32,
            w[4],
            w[5],
            w[6],
            0u32,
            w[8],
            w[9],
            w[10],
            0u32,
            w[12],
            w[13],
            w[14],
            ONE_BITS,
        ];
        proof {
            assert(r@ =~= self.view_m().update(3, 0u32).update(7, 0u32).update(11, 0u32).update(
                15,
                ONE_BITS,
            ));
        }
        r
    }

    /// Whether all sixteen packed entries denote finite numbers.
    pub fn is_finite(&self) -> (r: bool)
        ensures
            r == matrix_finite(self.view_m()),
    {
        let mut i: usize = 0;
        while i < 16
            invariant
                0 <= i <= 16,
                forall|j: int| 0 <= j < i ==> is_finite_bits(#[trigger] self.view_m()[j]),
            decreases 16 - i,
        {
            if !finite_bits(self.m[i]) {
                proof {
                    assert(!is_finite_bits(self.view_m()[i as int]));
                }
                return false;
            }
            i = i + 1;
        }
        true
    }
}

/// The world-to-local matrix of a sphere with center `pos` and radius
/// `radius`: scale by the reciprocal radius after translating the center to
/// the origin. `d` is the evaluator's reciprocal of the radius and `q` the
/// scaled, negated center.
pub open spec fn sphere_matrix_chain<F: Fn(ScalarOp, u32, u32) -> u32>(
    f: F,
    pos: Vec3,
    radius: u32,
    d: u32,
    q: Vec3,
    m: Seq<u32>,
) -> bool {
    &&& op_out(f, ScalarOp::Div, ONE_BITS, radius, d)
    &&& op_out(f, ScalarOp::Mul, d, neg_of(pos.x), q.x)
    &&& op_out(f, ScalarOp::Mul, d, neg_of(pos.y), q.y)
    &&& op_out(f, ScalarOp::Mul, d, neg_of(pos.z), q.z)
    &&& m =~= seq![
        d, 0u32, 0u32, 0u32,
        0u32, d, 0u32, 0u32,
        0u32, 0u32, d, 0u32,
        q.x, q.y, q.z, ONE_BITS,
    ]
}

impl Solid {
    /// Creates a sphere centered on `pos`, with radius `radius` and rgb-color
    /// `color`: world-to-local is scale(1/radius) composed with
    /// translate(-pos), every scalar step answered by the evaluator `f`.
    pub fn new_sphere<F: Fn(ScalarOp, u32, u32) -> u32 + Copy>(
        f: F,
        pos: Vec3,
        radius: u32,
        color: Vec3,
    ) -> (r: Solid)
        requires
            op_ok(f),
        ensures
            exists|d: u32, q: Vec3, m: Seq<u32>|
                sphere_matrix_chain(f, pos, radius, d, q, m) && r.view_m() == packed_matrix(
                    m,
                    color,
                    SolidKind::Sphere,
                ),
    {
        let d = f(ScalarOp::Div, ONE_BITS, radius);
        let qx = f(ScalarOp::Mul, d, crate::fbits::negate_bits(pos.x));
        let qy = f(ScalarOp::Mul, d, crate::fbits::negate_bits(pos.y));
        let qz = f(ScalarOp::Mul, d, crate::fbits::negate_bits(pos.z));
        let w: [u32; 16] = [d, 0, 0, 0, 0, d, 0, 0, 0, 0, d, 0, qx, qy, qz, ONE_BITS];
        let ghost q = Vec3 { x: qx, y: qy, z: qz };
        proof {
            assert(float_eq(0u32, 0u32));
            assert(float_eq(ONE_BITS, ONE_BITS));
            assert(sphere_matrix_chain(f, pos, radius, d, q, w@));
            assert(affine_last_row(w@));
        }
        let s = Solid::new(&w, color, SolidKind::Sphere);
        s.unwrap()
    }
}

/// Every kind reads back from its own discriminant pattern, and only the
/// three legal patterns decode at all.
pub proof fn lemma_kind_roundtrip(k: SolidKind)
    ensures
        kind_of_bits(kind_bits(k)) == Some(k),
{
}

/// The first three entries of the fourth column: the translation part of a
/// local-to-world matrix.
pub open spec fn translation_of(m: Seq<u32>) -> Vec3 {
    Vec3 { x: m[12], y: m[13], z: m[14] }
}

/// Row `r` of the upper-left 3x3 block of the column-major matrix.
pub open spec fn linear_row(m: Seq<u32>, r: int) -> Vec3 {
    Vec3 { x: m[r], y: m[r + 4], z: m[r + 8] }
}

/// The four sign corners (1, +-1, +-1) of the unit cube that remain after
/// folding out the symmetry under negation, as bit patterns.
pub open spec fn unit_corner(i: int) -> Vec3 {
    let one = ONE_BITS;
    let mone = neg_of(ONE_BITS);
    if i == 0 {
        Vec3 { x: one, y: one, z: one }
    } else if i == 1 {
        Vec3 { x: one, y: one, z: mone }
    } else if i == 2 {
        Vec3 { x: one, y: mone, z: one }
    } else {
        Vec3 { x: one, y: mone, z: mone }
    }
}

/// `w` is an image of `c` under the linear part of `m`: each component a dot
/// product of a matrix row with `c`, answered by the evaluator.
pub open spec fn image_rel<F: Fn(ScalarOp, u32, u32) -> u32>(
    f: F,
    m: Seq<u32>,
    c: Vec3,
    w: Vec3,
) -> bool {
    dot_rel(f, linear_row(m, 0), c, w.x) && dot_rel(f, linear_row(m, 1), c, w.y) && dot_rel(
        f,
        linear_row(m, 2),
        c,
        w.z,
    )
}

/// Componentwise absolute value: the sign bits cleared.
pub open spec fn abs3(v: Vec3) -> Vec3 {
    Vec3 { x: mag_of(v.x) as u32, y: mag_of(v.y) as u32, z: mag_of(v.z) as u32 }
}

/// Componentwise [`fmax`].
pub open spec fn max3(a: Vec3, b: Vec3) -> Vec3 {
    Vec3 { x: fmax(a.x, b.x), y: fmax(a.y, b.y), z: fmax(a.z, b.z) }
}

/// The half-extent of the box enclosing the images of the four sign corners:
/// the componentwise maximum of their absolute values, folded left.
pub open spec fn extent_of(w0: Vec3, w1: Vec3, w2: Vec3, w3: Vec3) -> Vec3 {
    max3(max3(max3(abs3(w0), abs3(w1)), abs3(w2)), abs3(w3))
}

/// The box whose corners are the translation part of `m` minus and plus the
/// folded extent of the corner images `w0..w3`, with every scalar step an
/// evaluator answer.
pub open spec fn bounding_aabb_chain<F: Fn(ScalarOp, u32, u32) -> u32>(
    f: F,
    m: Seq<u32>,
    w0: Vec3,
    w1: Vec3,
    w2: Vec3,
    w3: Vec3,
    r: Aabb,
) -> bool {
    let e = extent_of(w0, w1, w2, w3);
    &&& image_rel(f, m, unit_corner(0), w0)
    &&& image_rel(f, m, unit_corner(1), w1)
    &&& image_rel(f, m, unit_corner(2), w2)
    &&& image_rel(f, m, unit_corner(3), w3)
    &&& bin3(f, ScalarOp::Sub, translation_of(m), e, r.min)
    &&& bin3(f, ScalarOp::Add, translation_of(m), e, r.max)
}

/// `r` is a bounding box that the evaluator derives from the local-to-world
/// matrix `m`: corner images, their folded extent, and the translation part
/// minus and plus that extent as the two corners of the box.
pub open spec fn bounding_aabb_rel<F: Fn(ScalarOp, u32, u32) -> u32>(
    f: F,
    m: Seq<u32>,
    r: Aabb,
) -> bool {
    exists|w0: Vec3, w1: Vec3, w2: Vec3, w3: Vec3|
        #[trigger] bounding_aabb_chain(f, m, w0, w1, w2, w3, r)
}

/// The image of one unit corner under the linear part of `local_to_world`.
fn corner_image<F: Fn(ScalarOp, u32, u32) -> u32 + Copy>(
    f: F,
    local_to_world: &[u32; 16],
    c: Vec3,
) -> (w: Vec3)
    requires
        op_ok(f),
    ensures
        image_rel(f, local_to_world@, c, w),
{
    let m = *local_to_world;
    let r0 = Vec3 { x: m[0], y: m[4], z: m[8] };
    let r1 = Vec3 { x: m[1], y: m[5], z: m[9] };
    let r2 = Vec3 { x: m[2], y: m[6], z: m[10] };
    let wx = v3_dot(f, r0, c);
    let wy = v3_dot(f, r1, c);
    let wz = v3_dot(f, r2, c);
    proof {
        assert(r0 == linear_row(local_to_world@, 0));
        assert(r1 == linear_row(local_to_world@, 1));
        assert(r2 == linear_row(local_to_world@, 2));
    }
    Vec3 { x: wx, y: wy, z: wz }
}

/// Componentwise absolute value, executable.
fn v3_abs(v: Vec3) -> (r: Vec3)
    ensures
        r == abs3(v),
{
    Vec3 { x: abs_bits(v.x), y: abs_bits(v.y), z: abs_bits(v.z) }
}

/// Componentwise maximum, executable.
fn v3_max(a: Vec3, b: Vec3) -> (r: Vec3)
    ensures
        r == max3(a, b),
{
    Vec3 { x: max_bits(a.x, b.x), y: max_bits(a.y, b.y), z: max_bits(a.z, b.z) }
}

/// The bounding box of a solid, computed from the inverse of its
/// world-to-local matrix.
///
/// Every primitive is bounded in local space by the cube with side length 2
/// centered on the origin, so the box enclosing the image of that cube under
/// the local-to-world transform encloses the primitive, whatever its kind.
/// The caller inverts the matrix (an outside computation); this function does
/// the rest: images of the four sign corners, their absolute componentwise
/// maximum as half-extent, and translation -+ half-extent as the corners.
pub fn bounding_aabb_of_inverse<F: Fn(ScalarOp, u32, u32) -> u32 + Copy>(
    f: F,
    local_to_world: &[u32; 16],
) -> (r: Aabb)
    requires
        op_ok(f),
    ensures
        bounding_aabb_rel(f, local_to_world@, r),
{
    let one = ONE_BITS;
    let mone = crate::fbits::negate_bits(ONE_BITS);
    let c0 = Vec3 { x: one, y: one, z: one };
    let c1 = Vec3 { x: one, y: one, z: mone };
    let c2 = Vec3 { x: one, y: mone, z: one };
    let c3 = Vec3 { x: one, y: mone, z: mone };
    let w0 = corner_image(f, local_to_world, c0);
    let w1 = corner_image(f, local_to_world, c1);
    let w2 = corner_image(f, local_to_world, c2);
    let w3 = corner_image(f, local_to_world, c3);
    let e = v3_max(v3_max(v3_max(v3_abs(w0), v3_abs(w1)), v3_abs(w2)), v3_abs(w3));
    let m = *local_to_world;
    let center = Vec3 { x: m[12], y: m[13], z: m[14] };
    let lo = v3_bin(f, ScalarOp::Sub, center, e);
    let hi = v3_bin(f, ScalarOp::Add, center, e);
    let r = Aabb { min: lo, max: hi };
    proof {
        assert(center == translation_of(local_to_world@));
        assert(bounding_aabb_chain(f, local_to_world@, w0, w1, w2, w3, r));
    }
    r
}

/// The pattern later in the IEEE 754 total order; ties keep the first.
pub open spec fn tmax(a: u32, b: u32) -> u32 {
    if crate::fbits::total_key(b) > crate::fbits::total_key(a) {
        b
    } else {
        a
    }
}

/// `(center, radius)` is a bounding sphere that the evaluator derives from
/// the local-to-world matrix `m`: the radius is the square root of the
/// largest squared magnitude among the images of the four sign corners, and
/// the center is the translation part.
pub open spec fn bounding_sphere_chain<F: Fn(ScalarOp, u32, u32) -> u32>(
    f: F,
    m: Seq<u32>,
    w0: Vec3,
    w1: Vec3,
    w2: Vec3,
    w3: Vec3,
    q0: u32,
    q1: u32,
    q2: u32,
    q3: u32,
    center: Vec3,
    radius: u32,
) -> bool {
    &&& image_rel(f, m, unit_corner(0), w0)
    &&& image_rel(f, m, unit_corner(1), w1)
    &&& image_rel(f, m, unit_corner(2), w2)
    &&& image_rel(f, m, unit_corner(3), w3)
    &&& dot_rel(f, w0, w0, q0)
    &&& dot_rel(f, w1, w1, q1)
    &&& dot_rel(f, w2, w2, q2)
    &&& dot_rel(f, w3, w3, q3)
    &&& sqrt_out(f, tmax(tmax(tmax(q0, q1), q2), q3), radius)
    &&& center == translation_of(m)
}

pub open spec fn bounding_sphere_rel<F: Fn(ScalarOp, u32, u32) -> u32>(
    f: F,
    m: Seq<u32>,
    center: Vec3,
    radius: u32,
) -> bool {
    exists|w0: Vec3, w1: Vec3, w2: Vec3, w3: Vec3, q0: u32, q1: u32, q2: u32, q3: u32|
        #[trigger] bounding_sphere_chain(f, m, w0, w1, w2, w3, q0, q1, q2, q3, center, radius)
}

/// The bounding sphere of a solid, computed from the inverse of its
/// world-to-local matrix: the translation part as center, and as radius the
/// square root of the largest squared corner-image magnitude. Squared
/// magnitudes are compared in the IEEE 754 total order, so even exotic
/// patterns are ordered; on finite values that is the usual order.
pub fn bounding_sphere_of_inverse<F: Fn(ScalarOp, u32, u32) -> u32 + Copy>(
    f: F,
    local_to_world: &[u32; 16],
) -> (r: (Vec3, u32))
    requires
        op_ok(f),
    ensures
        bounding_sphere_rel(f, local_to_world@, r.0, r.1),
{
    let one = ONE_BITS;
    let mone = crate::fbits::negate_bits(ONE_BITS);
    let c0 = Vec3 { x: one, y: one, z: one };
    let c1 = Vec3 { x: one, y: one, z: mone };
    let c2 = Vec3 { x: one, y: mone, z: one };
    let c3 = Vec3 { x: one, y: mone, z: mone };
    let w0 = corner_image(f, local_to_world, c0);
    let w1 = corner_image(f, local_to_world, c1);
    let w2 = corner_image(f, local_to_world, c2);
    let w3 = corner_image(f, local_to_world, c3);
    let q0 = v3_dot(f, w0, w0);
    let q1 = v3_dot(f, w1, w1);
    let q2 = v3_dot(f, w2, w2);
    let q3 = v3_dot(f, w3, w3);
    let mut qm = q0;
    if !total_le_bits(q1, qm) {
        qm = q1;
    }
    if !total_le_bits(q2, qm) {
        qm = q2;
    }
    if !total_le_bits(q3, qm) {
        qm = q3;
    }
    let radius = f(ScalarOp::Sqrt, qm, 0);
    let m = *local_to_world;
    let center = Vec3 { x: m[12], y: m[13], z: m[14] };
    proof {
        assert(center == translation_of(local_to_world@));
        assert(qm == tmax(tmax(tmax(q0, q1), q2), q3));
        assert(bounding_sphere_chain(
            f,
            local_to_world@,
            w0,
            w1,
            w2,
            w3,
            q0,
            q1,
            q2,
            q3,
            center,
            radius,
        ));
    }
    (center, radius)
}

} // verus!
