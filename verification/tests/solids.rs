//! Solids: construction, kind encoding, bounding sphere and bounding box.

use agentbox::ops::{ScalarOp, Vec3};
use cgmath::SquareMatrix;
use agentbox::solid::{Solid, SolidError, SolidKind};

/// Genuine binary32 arithmetic as the evaluator.
fn evalop(op: ScalarOp, a: u32, b: u32) -> u32 {
    let x = f32::from_bits(a);
    let y = f32::from_bits(b);
    match op {
        ScalarOp::Add => (x + y).to_bits(),
        ScalarOp::Sub => (x - y).to_bits(),
        ScalarOp::Mul => (x * y).to_bits(),
        ScalarOp::Div => (x / y).to_bits(),
        ScalarOp::Sqrt => x.sqrt().to_bits(),
    }
}

fn v3(x: f32, y: f32, z: f32) -> Vec3 {
    Vec3 { x: x.to_bits(), y: y.to_bits(), z: z.to_bits() }
}

/// Relative equality as cgmath's assert_relative_eq defaults do it: an
/// absolute-difference check against machine epsilon, then a relative one.
fn relative_eq(a: f32, b: f32) -> bool {
    let diff = (a - b).abs();
    if diff <= f32::EPSILON {
        return true;
    }
    diff <= f32::EPSILON * a.abs().max(b.abs())
}

/// The local-to-world matrix of a solid, inverted with cgmath.
fn invert_solid(s: &Solid) -> [u32; 16] {
    let w = s.world_to_local();
    let fs: Vec<f32> = w.iter().map(|b| f32::from_bits(*b)).collect();
    let m = cgmath::Matrix4::new(
        fs[0], fs[1], fs[2], fs[3], fs[4], fs[5], fs[6], fs[7], fs[8], fs[9], fs[10], fs[11],
        fs[12], fs[13], fs[14], fs[15],
    );
    let inv = m.invert().expect("world_to_local must be invertible");
    let cols: [cgmath::Vector4<f32>; 4] = [inv.x, inv.y, inv.z, inv.w];
    let mut out = [0u32; 16];
    for c in 0..4 {
        out[4 * c] = cols[c].x.to_bits();
        out[4 * c + 1] = cols[c].y.to_bits();
        out[4 * c + 2] = cols[c].z.to_bits();
        out[4 * c + 3] = cols[c].w.to_bits();
    }
    out
}

fn properly_bound_sphere(pos: [f32; 3], radius: f32) {
    let inner = Solid::new_sphere(
        evalop,
        v3(pos[0], pos[1], pos[2]),
        radius.to_bits(),
        v3(1.0, 0.0, 0.0),
    );
    let inv = invert_solid(&inner);
    let (bound_pos, bound_radius) = agentbox::solid::bounding_sphere_of_inverse(evalop, &inv);
    assert!(relative_eq(f32::from_bits(bound_pos.x), pos[0]));
    assert!(relative_eq(f32::from_bits(bound_pos.y), pos[1]));
    assert!(relative_eq(f32::from_bits(bound_pos.z), pos[2]));
    assert!(f32::from_bits(bound_radius) >= radius);
}

#[test]
fn properly_bound_sphere_origin_1() {
    properly_bound_sphere([0.0, 0.0, 0.0], 1.0);
}

#[test]
fn properly_bound_sphere_origin_large() {
    properly_bound_sphere([0.0, 0.0, 0.0], 123.0);
}

#[test]
fn properly_bound_sphere_origin_small() {
    properly_bound_sphere([0.0, 0.0, 0.0], 1.0 / 123.0);
}

#[test]
fn properly_bound_sphere_elsewhere_small() {
    properly_bound_sphere([1.0, 0.0, 0.0], 1.0 / 123.0);
}

#[test]
fn properly_bound_sphere_elsewhere_1() {
    properly_bound_sphere([2.3, 0.0, 0.0], 1.0);
}

#[test]
fn properly_bound_sphere_elsewhere_large() {
    properly_bound_sphere([100.0, 0.0, 0.0], 123.0);
}

#[test]
fn sphere_bounding_aabb_exact() {
    let s = Solid::new_sphere(evalop, v3(2.3, 0.0, 0.0), 1.0f32.to_bits(), v3(1.0, 0.0, 0.0));
    let inv = invert_solid(&s);
    let aabb = agentbox::solid::bounding_aabb_of_inverse(evalop, &inv);
    let expect_min = [1.3f32, -1.0, -1.0];
    let expect_max = [3.3f32, 1.0, 1.0];
    let got_min = [
        f32::from_bits(aabb.min.x),
        f32::from_bits(aabb.min.y),
        f32::from_bits(aabb.min.z),
    ];
    let got_max = [
        f32::from_bits(aabb.max.x),
        f32::from_bits(aabb.max.y),
        f32::from_bits(aabb.max.z),
    ];
    for i in 0..3 {
        assert!((got_min[i] - expect_min[i]).abs() < 1e-6, "min[{}] = {}", i, got_min[i]);
        assert!((got_max[i] - expect_max[i]).abs() < 1e-6, "max[{}] = {}", i, got_max[i]);
    }
}

#[test]
fn kind_discriminants_are_small_floats() {
    assert_eq!(SolidKind::Sphere.to_float_bits(), 1.0f32.to_bits());
    assert_eq!(SolidKind::Cylinder.to_float_bits(), 2.0f32.to_bits());
    assert_eq!(SolidKind::Cube.to_float_bits(), 4.0f32.to_bits());
    assert!(matches!(SolidKind::from_float_bits(1.0f32.to_bits()), Some(SolidKind::Sphere)));
    assert!(matches!(SolidKind::from_float_bits(2.0f32.to_bits()), Some(SolidKind::Cylinder)));
    assert!(matches!(SolidKind::from_float_bits(4.0f32.to_bits()), Some(SolidKind::Cube)));
    assert!(SolidKind::from_float_bits(3.0f32.to_bits()).is_none());
    assert!(SolidKind::from_float_bits(0).is_none());
}

#[test]
fn solid_packs_color_and_kind() {
    let color = v3(0.25, 0.5, 0.75);
    let s = Solid::new_sphere(evalop, v3(0.0, 0.0, 0.0), 1.0f32.to_bits(), color);
    let w = s.words();
    assert_eq!(w[3], 0.25f32.to_bits());
    assert_eq!(w[7], 0.5f32.to_bits());
    assert_eq!(w[11], 0.75f32.to_bits());
    assert_eq!(w[15], 1.0f32.to_bits());
    assert!(matches!(s.kind(), Some(SolidKind::Sphere)));
    // The diagonal holds the reciprocal radius scale; radius 1 leaves it 1.
    assert_eq!(w[0], 1.0f32.to_bits());
    assert_eq!(w[5], 1.0f32.to_bits());
    assert_eq!(w[10], 1.0f32.to_bits());
    // Restoring the transform clears the packed slots.
    let wl = s.world_to_local();
    assert_eq!(wl[3], 0.0f32.to_bits());
    assert_eq!(wl[7], 0.0f32.to_bits());
    assert_eq!(wl[11], 0.0f32.to_bits());
    assert_eq!(wl[15], 1.0f32.to_bits());
}

#[test]
fn solid_new_rejects_non_affine_last_row() {
    let mut m = [0u32; 16];
    // An identity matrix, then a corrupted last row.
    m[0] = 1.0f32.to_bits();
    m[5] = 1.0f32.to_bits();
    m[10] = 1.0f32.to_bits();
    m[15] = 1.0f32.to_bits();
    m[3] = 0.5f32.to_bits();
    let r = Solid::new(&m, v3(0.0, 0.0, 0.0), SolidKind::Cube);
    assert!(matches!(r, Err(SolidError::LastRowNotAffine)));
    // The two zeros are equal: a negative-zero slot still passes.
    m[3] = (-0.0f32).to_bits();
    let r2 = Solid::new(&m, v3(0.0, 0.0, 0.0), SolidKind::Cube);
    assert!(r2.is_ok());
}

#[test]
fn solid_is_finite_spots_infinities() {
    // Radius zero scales by 1/0: an infinite diagonal.
    let s = Solid::new_sphere(evalop, v3(0.0, 0.0, 0.0), 0.0f32.to_bits(), v3(1.0, 0.0, 0.0));
    assert!(!s.is_finite());
    let ok = Solid::new_sphere(evalop, v3(0.0, 0.0, 0.0), 2.0f32.to_bits(), v3(1.0, 0.0, 0.0));
    assert!(ok.is_finite());
}
