//! The bounding-volume hierarchy: shape, containment and scene validation.

use agentbox::aabb_tree::{build_tree, update_scene, SceneError, NO_RIGHT_CHILD};
use agentbox::ops::{ScalarOp, Vec3};
use cgmath::SquareMatrix;
use agentbox::solid::{Aabb, Solid};

fn evalop(op: ScalarOp, a: u32, b: u32) -> u32 {
    let x = f32::from_bits(a);
    let y = f32::from_bits(b);
    match op {
        ScalarOp::Add => (x + y).to_bits(),
        ScalarOp::Sub => (x - y).to_bits(),
        ScalarOp::Mul => (x * y).to_bits(),
        ScalarOp::Div => (x / y).to_bits(),
        ScalarOp::Sqrt => x.sqrt().to_bits(),
    }
}

fn v3(x: f32, y: f32, z: f32) -> Vec3 {
    Vec3 { x: x.to_bits(), y: y.to_bits(), z: z.to_bits() }
}

fn f(b: u32) -> f32 {
    f32::from_bits(b)
}

fn aabb(min: [f32; 3], max: [f32; 3]) -> Aabb {
    Aabb { min: v3(min[0], min[1], min[2]), max: v3(max[0], max[1], max[2]) }
}

fn sphere(pos: [f32; 3], radius: f32) -> Solid {
    Solid::new_sphere(evalop, v3(pos[0], pos[1], pos[2]), radius.to_bits(), v3(1.0, 0.0, 0.0))
}

fn invert_solid(s: &Solid) -> [u32; 16] {
    let w = s.world_to_local();
    let fs: Vec<f32> = w.iter().map(|b| f32::from_bits(*b)).collect();
    let m = cgmath::Matrix4::new(
        fs[0], fs[1], fs[2], fs[3], fs[4], fs[5], fs[6], fs[7], fs[8], fs[9], fs[10], fs[11],
        fs[12], fs[13], fs[14], fs[15],
    );
    let inv = m.invert().expect("world_to_local must be invertible");
    let cols: [cgmath::Vector4<f32>; 4] = [inv.x, inv.y, inv.z, inv.w];
    let mut out = [0u32; 16];
    for c in 0..4 {
        out[4 * c] = cols[c].x.to_bits();
        out[4 * c + 1] = cols[c].y.to_bits();
        out[4 * c + 2] = cols[c].z.to_bits();
        out[4 * c + 3] = cols[c].w.to_bits();
    }
    out
}

fn solid_aabb(s: &Solid) -> Aabb {
    agentbox::solid::bounding_aabb_of_inverse(evalop, &invert_solid(s))
}

#[test]
fn two_solid_bvh() {
    let solids = vec![sphere([0.0, 0.0, 0.0], 1.0), sphere([10.0, 0.0, 0.0], 1.0)];
    let boxes: Vec<Aabb> = solids.iter().map(solid_aabb).collect();
    let tree = update_scene(evalop, &solids, &boxes).expect("a valid two-solid scene");
    assert_eq!(tree.len(), 3);
    let root = tree[0];
    assert_ne!(root.right, NO_RIGHT_CHILD);
    let eps = 1e-6f32;
    assert!((f(root.min.x) - -1.0).abs() < eps);
    assert!((f(root.min.y) - -1.0).abs() < eps);
    assert!((f(root.min.z) - -1.0).abs() < eps);
    assert!((f(root.max.x) - 11.0).abs() < eps);
    assert!((f(root.max.y) - 1.0).abs() < eps);
    assert!((f(root.max.z) - 1.0).abs() < eps);
    // Both leaves follow the root and reference the two solids, each once.
    assert_eq!(tree[1].right, NO_RIGHT_CHILD);
    assert_eq!(tree[2].right, NO_RIGHT_CHILD);
    let mut lefts = vec![tree[1].left, tree[2].left];
    lefts.sort();
    assert_eq!(lefts, vec![0, 1]);
    // The root's children are the two leaves.
    let mut children = vec![root.left, root.right];
    children.sort();
    assert_eq!(children, vec![1, 2]);
}

#[test]
fn single_solid_tree_is_one_leaf() {
    let boxes = vec![aabb([-1.0, -1.0, -1.0], [1.0, 1.0, 1.0])];
    let tree = build_tree(evalop, &boxes);
    assert_eq!(tree.len(), 1);
    assert_eq!(tree[0].right, NO_RIGHT_CHILD);
    assert_eq!(tree[0].left, 0);
    assert_eq!(f(tree[0].min.x), -1.0);
    assert_eq!(f(tree[0].max.x), 1.0);
}

#[test]
fn five_box_tree_contains_children() {
    let boxes = vec![
        aabb([0.0, 0.0, 0.0], [1.0, 1.0, 1.0]),
        aabb([0.5, 0.0, 0.0], [1.5, 1.0, 1.0]),
        aabb([8.0, 8.0, 8.0], [9.0, 9.0, 9.0]),
        aabb([-4.0, 0.0, 0.0], [-3.0, 1.0, 1.0]),
        aabb([8.5, 8.0, 8.0], [9.5, 9.0, 9.0]),
    ];
    let tree = build_tree(evalop, &boxes);
    assert_eq!(tree.len(), 9);
    let n = boxes.len();
    for j in 0..tree.len() {
        let nd = tree[j];
        if nd.right == NO_RIGHT_CHILD {
            // Leaves sit at the tail, mirrored: slot j holds input 2n-2-j.
            assert!(j >= n - 1);
            let s = 2 * n - 2 - j;
            assert_eq!(nd.left as usize, s);
            assert_eq!(nd.min, boxes[s].min);
            assert_eq!(nd.max, boxes[s].max);
        } else {
            assert!(j < n - 1);
            let l = nd.left as usize;
            let r = nd.right as usize;
            assert!(l > j && l < tree.len());
            assert!(r > j && r < tree.len());
            assert_ne!(l, r);
            for c in [l, r] {
                assert!(f(nd.min.x) <= f(tree[c].min.x));
                assert!(f(nd.min.y) <= f(tree[c].min.y));
                assert!(f(nd.min.z) <= f(tree[c].min.z));
                assert!(f(tree[c].max.x) <= f(nd.max.x));
                assert!(f(tree[c].max.y) <= f(nd.max.y));
                assert!(f(tree[c].max.z) <= f(nd.max.z));
            }
        }
    }
    // Nearby boxes pair up first: the two clusters around the origin and
    // around (8.5, 8.5, 8.5) each sit under one subtree of the root.
    let root = tree[0];
    assert!(f(root.min.x) <= -4.0 && f(root.max.x) >= 9.5);
}

#[test]
fn update_scene_rejects_empty() {
    let r = update_scene(evalop, &vec![], &vec![]);
    assert_eq!(r.unwrap_err(), SceneError::NoSolids);
}

#[test]
fn update_scene_rejects_count_mismatch() {
    let solids = vec![sphere([0.0, 0.0, 0.0], 1.0)];
    let r = update_scene(evalop, &solids, &vec![]);
    assert_eq!(r.unwrap_err(), SceneError::CountMismatch);
}

#[test]
fn update_scene_rejects_infinite_solid() {
    // Radius zero scales by 1/0: an infinite matrix entry.
    let solids = vec![sphere([0.0, 0.0, 0.0], 0.0)];
    let boxes = vec![aabb([-1.0, -1.0, -1.0], [1.0, 1.0, 1.0])];
    let r = update_scene(evalop, &solids, &boxes);
    assert_eq!(r.unwrap_err(), SceneError::SolidNotFinite);
}

#[test]
fn update_scene_rejects_infinite_box() {
    let solids = vec![sphere([0.0, 0.0, 0.0], 1.0)];
    let boxes = vec![aabb([f32::NEG_INFINITY, -1.0, -1.0], [1.0, 1.0, 1.0])];
    let r = update_scene(evalop, &solids, &boxes);
    assert_eq!(r.unwrap_err(), SceneError::BoxNotFinite);
}

#[test]
fn node_words_layout() {
    let boxes = vec![aabb([1.0, 2.0, 3.0], [4.0, 5.0, 6.0])];
    let tree = build_tree(evalop, &boxes);
    let w = tree[0].words();
    assert_eq!(w[0], 1.0f32.to_bits());
    assert_eq!(w[1], 2.0f32.to_bits());
    assert_eq!(w[2], 3.0f32.to_bits());
    assert_eq!(w[3], 0);
    assert_eq!(w[4], 4.0f32.to_bits());
    assert_eq!(w[5], 5.0f32.to_bits());
    assert_eq!(w[6], 6.0f32.to_bits());
    assert_eq!(w[7], u32::MAX);
}
