//! The bounding-volume-hierarchy builder: a binary axis-aligned-bounding-box
//! tree over a list of boxes, built by the nearest-neighbor chain algorithm
//! in `O(n^2)` and laid out root-first in a flat array for GPU traversal.
//!
//! Box unions and box comparisons are order questions on binary32 patterns and
//! are decided here at the bit level; only the join cost (a surface-area
//! difference) is arithmetic, and its scalar steps are answered by the
//! caller's evaluator. The shape of the result - `2n - 1` nodes, the root at
//! index 0, every child behind its parent, every leaf holding its input box,
//! every internal box containing both children's boxes - is proved whatever
//! the evaluator answers; the evaluator only steers which pairs join first.

use vstd::prelude::*;

use crate::fbits::{float_le, fmin, fmax, min_bits, max_bits, total_le_bits};
use crate::ops::{ScalarOp, Vec3, op_ok, op_out, v3_sub, bin3};
use crate::solid::{Aabb, Solid, matrix_finite};

verus! {

/// The `right` value that marks a leaf; then `left` is a solid index.
pub const NO_RIGHT_CHILD: u32 = u32::MAX;

/// One tree node, 32 bytes on the GPU: bounding corners and two indices.
/// `right == NO_RIGHT_CHILD` marks a leaf whose `left` indexes the solids
/// buffer; otherwise both indices point into the node array itself.
#[derive(Clone, Copy, PartialEq, Eq, Structural, Debug)]
pub struct Node {
    pub min: Vec3,
    pub left: u32,
    pub max: Vec3,
    pub right: u32,
}

impl Node {
    /// The node as the eight words the GPU reads.
    pub fn words(&self) -> (r: [u32; 8])
        ensures
            r@ =~= seq![
                self.min.x,
                self.min.y,
                self.min.z,
                self.left,
                self.max.x,
                self.max.y,
                self.max.z,
                self.right,
            ],
    {
        [self.min.x, self.min.y, self.min.z, self.left, self.max.x, self.max.y, self.max.z,
            self.right]
    }
}

/// The bounding box the node carries.
pub open spec fn node_box(nd: Node) -> Aabb {
    Aabb { min: nd.min, max: nd.max }
}

/// `outer` contains `inner` componentwise, under IEEE 754 `<=` on the
/// denoted coordinates.
pub open spec fn aabb_contains(outer: Aabb, inner: Aabb) -> bool {
    &&& float_le(outer.min.x, inner.min.x)
    &&& float_le(outer.min.y, inner.min.y)
    &&& float_le(outer.min.z, inner.min.z)
    &&& float_le(inner.max.x, outer.max.x)
    &&& float_le(inner.max.y, outer.max.y)
    &&& float_le(inner.max.z, outer.max.z)
}

/// The componentwise union box: minima of minima, maxima of maxima.
pub open spec fn box_union(a: Aabb, b: Aabb) -> Aabb {
    Aabb {
        min: Vec3 {
            x: fmin(a.min.x, b.min.x),
            y: fmin(a.min.y, b.min.y),
            z: fmin(a.min.z, b.min.z),
        },
        max: Vec3 {
            x: fmax(a.max.x, b.max.x),
            y: fmax(a.max.y, b.max.y),
            z: fmax(a.max.z, b.max.z),
        },
    }
}

/// Computes [`box_union`]; on finite boxes the union is finite and contains
/// both arguments.
pub fn aabb_union(a: Aabb, b: Aabb) -> (r: Aabb)
    ensures
        r == box_union(a, b),
        a.is_finite() && b.is_finite() ==> r.is_finite() && aabb_contains(r, a) && aabb_contains(
            r,
            b,
        ),
{
    Aabb {
        min: Vec3 {
            x: min_bits(a.min.x, b.min.x),
            y: min_bits(a.min.y, b.min.y),
            z: min_bits(a.min.z, b.min.z),
        },
        max: Vec3 {
            x: max_bits(a.max.x, b.max.x),
            y: max_bits(a.max.y, b.max.y),
            z: max_bits(a.max.z, b.max.z),
        },
    }
}

/// The surface-area proxy of an extent, `x*y + y*z + z*x`, with its scalar
/// steps named.
pub open spec fn area_chain<F: Fn(ScalarOp, u32, u32) -> u32>(
    f: F,
    e: Vec3,
    xy: u32,
    yz: u32,
    zx: u32,
    s1: u32,
    r: u32,
) -> bool {
    &&& op_out(f, ScalarOp::Mul, e.x, e.y, xy)
    &&& op_out(f, ScalarOp::Mul, e.y, e.z, yz)
    &&& op_out(f, ScalarOp::Mul, e.z, e.x, zx)
    &&& op_out(f, ScalarOp::Add, xy, yz, s1)
    &&& op_out(f, ScalarOp::Add, s1, zx, r)
}

/// The full cost computation of joining boxes `a` and `b`: the three extents,
/// their areas, and the difference `area(union) - area(a) - area(b)`.
pub open spec fn cost_chain<F: Fn(ScalarOp, u32, u32) -> u32>(
    f: F,
    a: Aabb,
    b: Aabb,
    ea: Vec3,
    eb: Vec3,
    ec: Vec3,
    xys: Seq<u32>,
    aa: u32,
    ab: u32,
    ac: u32,
    d1: u32,
    r: u32,
) -> bool {
    &&& bin3(f, ScalarOp::Sub, a.max, a.min, ea)
    &&& bin3(f, ScalarOp::Sub, b.max, b.min, eb)
    &&& bin3(f, ScalarOp::Sub, box_union(a, b).max, box_union(a, b).min, ec)
    &&& xys.len() == 12
    &&& area_chain(f, ea, xys[0], xys[1], xys[2], xys[3], aa)
    &&& area_chain(f, eb, xys[4], xys[5], xys[6], xys[7], ab)
    &&& area_chain(f, ec, xys[8], xys[9], xys[10], xys[11], ac)
    &&& op_out(f, ScalarOp::Sub, ac, aa, d1)
    &&& op_out(f, ScalarOp::Sub, d1, ab, r)
}

/// `r` is a cost the evaluator can derive for joining `a` and `b`: the
/// increase in total surface area, up to a constant factor. Not strictly a
/// metric, but the chain algorithm is satisfied with an approximate tree.
pub open spec fn cost_rel<F: Fn(ScalarOp, u32, u32) -> u32>(f: F, a: Aabb, b: Aabb, r: u32) -> bool {
    exists|ea: Vec3, eb: Vec3, ec: Vec3, xys: Seq<u32>, aa: u32, ab: u32, ac: u32, d1: u32|
        #[trigger] cost_chain(f, a, b, ea, eb, ec, xys, aa, ab, ac, d1, r)
}

/// The surface-area proxy of an extent.
fn area<F: Fn(ScalarOp, u32, u32) -> u32 + Copy>(f: F, e: Vec3) -> (r: (u32, Ghost<Seq<u32>>))
    requires
        op_ok(f),
    ensures
        r.1@.len() == 4,
        area_chain(f, e, r.1@[0], r.1@[1], r.1@[2], r.1@[3], r.0),
{
    let xy = f(ScalarOp::Mul, e.x, e.y);
    let yz = f(ScalarOp::Mul, e.y, e.z);
    let zx = f(ScalarOp::Mul, e.z, e.x);
    let s1 = f(ScalarOp::Add, xy, yz);
    let r = f(ScalarOp::Add, s1, zx);
    let ghost g = seq![xy, yz, zx, s1];
    (r, Ghost(g))
}

/// The cost of joining two boxes, as the evaluator answers it.
fn join_cost<F: Fn(ScalarOp, u32, u32) -> u32 + Copy>(f: F, a: Aabb, b: Aabb) -> (r: u32)
    requires
        op_ok(f),
    ensures
        cost_rel(f, a, b, r),
{
    let ea = v3_sub(f, a.max, a.min);
    let eb = v3_sub(f, b.max, b.min);
    let u = aabb_union(a, b);
    let ec = v3_sub(f, u.max, u.min);
    let (aa, ga) = area(f, ea);
    let (ab, gb) = area(f, eb);
    let (ac, gc) = area(f, ec);
    let d1 = f(ScalarOp::Sub, ac, aa);
    let r = f(ScalarOp::Sub, d1, ab);
    proof {
        let xys = ga@ + gb@ + gc@;
        assert(area_chain(f, ea, xys[0], xys[1], xys[2], xys[3], aa));
        assert(area_chain(f, eb, xys[4], xys[5], xys[6], xys[7], ab));
        assert(area_chain(f, ec, xys[8], xys[9], xys[10], xys[11], ac));
        assert(cost_chain(f, a, b, ea, eb, ec, xys, aa, ab, ac, d1, r));
    }
    r
}

/// The leaf node of input box `i`.
pub open spec fn leaf_node(boxes: Seq<Aabb>, i: int) -> Node {
    Node { min: boxes[i].min, left: i as u32, max: boxes[i].max, right: NO_RIGHT_CHILD }
}

/// What one slot of the finished, root-first array must hold, for `n` input
/// boxes laid out in a `2n - 1` node array.
///
/// Slots `n-1` and beyond are the leaves: slot `j` holds input box
/// `2n - 2 - j`. Slots before `n-1` are internal: both children lie strictly
/// behind the parent, are distinct, and their boxes are contained in the
/// parent's.
pub open spec fn tree_node_wf(tree: Seq<Node>, boxes: Seq<Aabb>, j: int) -> bool {
    let n = boxes.len() as int;
    let nd = tree[j];
    if j >= n - 1 {
        nd == leaf_node(boxes, 2 * n - 2 - j)
    } else {
        &&& nd.right != NO_RIGHT_CHILD
        &&& j < nd.left < 2 * n - 1
        &&& j < nd.right < 2 * n - 1
        &&& nd.left != nd.right
        &&& aabb_contains(node_box(nd), node_box(tree[nd.left as int]))
        &&& aabb_contains(node_box(nd), node_box(tree[nd.right as int]))
        &&& node_box(nd).is_finite()
    }
}

/// The finished array is well formed: `2n - 1` slots, each as
/// [`tree_node_wf`] demands. The root is slot 0: every child index is
/// strictly larger than its parent's, so nothing points at slot 0.
pub open spec fn tree_wf(tree: Seq<Node>, boxes: Seq<Aabb>) -> bool {
    &&& tree.len() == 2 * boxes.len() - 1
    &&& forall|j: int| 0 <= j < tree.len() ==> tree_node_wf(tree, boxes, j)
}

/// How many slots still hold a node.
pub open spec fn count_some(s: Seq<Option<Node>>) -> int
    decreases s.len(),
{
    if s.len() == 0 {
        0
    } else {
        count_some(s.drop_last()) + if s.last() is Some {
            1int
        } else {
            0int
        }
    }
}

proof fn lemma_count_update_to_none(s: Seq<Option<Node>>, i: int)
    requires
        0 <= i < s.len(),
        s[i] is Some,
    ensures
        count_some(s.update(i, None)) == count_some(s) - 1,
    decreases s.len(),
{
    let t = s.update(i, None);
    if i == s.len() - 1 {
        assert(t.drop_last() =~= s.drop_last());
    } else {
        assert(t.drop_last() =~= s.drop_last().update(i, None));
        lemma_count_update_to_none(s.drop_last(), i);
    }
}

proof fn lemma_count_push(s: Seq<Option<Node>>, v: Option<Node>)
    ensures
        count_some(s.push(v)) == count_some(s) + if v is Some {
            1int
        } else {
            0int
        },
{
    assert(s.push(v).drop_last() =~= s);
}

proof fn lemma_all_none_count(s: Seq<Option<Node>>)
    requires
        forall|j: int| 0 <= j < s.len() ==> s[j] is None,
    ensures
        count_some(s) == 0,
    decreases s.len(),
{
    if s.len() > 0 {
        lemma_all_none_count(s.drop_last());
    }
}

proof fn lemma_count_unique(s: Seq<Option<Node>>, c: int)
    requires
        0 <= c < s.len(),
        s[c] is Some,
        forall|j: int| 0 <= j < s.len() && j != c ==> s[j] is None,
    ensures
        count_some(s) == 1,
    decreases s.len(),
{
    if c == s.len() - 1 {
        lemma_all_none_count(s.drop_last());
    } else {
        lemma_count_unique(s.drop_last(), c);
    }
}

proof fn lemma_count_zero_all_none(s: Seq<Option<Node>>)
    requires
        count_some(s) == 0,
    ensures
        forall|j: int| 0 <= j < s.len() ==> s[j] is None,
    decreases s.len(),
{
    if s.len() > 0 {
        assert(count_some(s.drop_last()) >= 0) by {
            lemma_count_nonneg(s.drop_last());
        }
        lemma_count_zero_all_none(s.drop_last());
        assert(forall|j: int|
            0 <= j < s.len() - 1 ==> s[j] == s.drop_last()[j] && s.drop_last()[j] is None);
    }
}

proof fn lemma_count_nonneg(s: Seq<Option<Node>>)
    ensures
        count_some(s) >= 0,
    decreases s.len(),
{
    if s.len() > 0 {
        lemma_count_nonneg(s.drop_last());
    }
}

proof fn lemma_unique_of_count_one(s: Seq<Option<Node>>, c: int)
    requires
        0 <= c < s.len(),
        s[c] is Some,
        count_some(s) == 1,
    ensures
        forall|j: int| 0 <= j < s.len() && j != c ==> s[j] is None,
    decreases s.len(),
{
    lemma_count_nonneg(s.drop_last());
    if c == s.len() - 1 {
        lemma_count_zero_all_none(s.drop_last());
        assert(forall|j: int|
            0 <= j < s.len() - 1 ==> s[j] == s.drop_last()[j] && s.drop_last()[j] is None);
    } else {
        if s.last() is Some {
            lemma_count_zero_all_none(s.drop_last());
            assert(s.drop_last()[c] is None);
            assert(false);
        }
        lemma_unique_of_count_one(s.drop_last(), c);
        assert(forall|j: int| 0 <= j < s.len() - 1 && j != c ==> s.drop_last()[j] is None);
        assert(forall|j: int| 0 <= j < s.len() - 1 ==> s[j] == s.drop_last()[j]);
    }
}

/// The node a working slot currently denotes: the live node while it is
/// still a root, its finalized copy once it has moved to the output array.
pub open spec fn slot_node(nodes: Seq<Option<Node>>, final_tree: Seq<Node>, i: int) -> Node {
    if nodes[i] is Some {
        nodes[i].unwrap()
    } else {
        final_tree[i]
    }
}

/// Well-formedness of working slot `i` during construction: slots below `n`
/// are the input leaves; later slots are joins whose children are earlier,
/// distinct, already finalized slots with contained boxes.
pub open spec fn slot_wf(
    nodes: Seq<Option<Node>>,
    final_tree: Seq<Node>,
    boxes: Seq<Aabb>,
    i: int,
) -> bool {
    let nd = slot_node(nodes, final_tree, i);
    let n = boxes.len() as int;
    if i < n {
        nd == leaf_node(boxes, i)
    } else {
        &&& nd.right != NO_RIGHT_CHILD
        &&& nd.left < i
        &&& nd.right < i
        &&& nd.left != nd.right
        &&& nodes[nd.left as int] is None
        &&& nodes[nd.right as int] is None
        &&& aabb_contains(node_box(nd), node_box(final_tree[nd.left as int]))
        &&& aabb_contains(node_box(nd), node_box(final_tree[nd.right as int]))
        &&& node_box(nd).is_finite()
    }
}

/// Everything the construction loops maintain.
pub open spec fn building_inv(
    nodes: Seq<Option<Node>>,
    final_tree: Seq<Node>,
    boxes: Seq<Aabb>,
    num_roots: int,
) -> bool {
    let n = boxes.len() as int;
    &&& 1 <= n <= 0x4000_0000
    &&& forall|i: int| 0 <= i < n ==> (#[trigger] boxes[i]).is_finite()
    &&& final_tree.len() == 2 * n - 1
    &&& n <= nodes.len() <= 2 * n - 1
    &&& num_roots == 2 * n - nodes.len()
    &&& count_some(nodes) == num_roots
    &&& nodes[nodes.len() - 1] is Some
    &&& forall|i: int| 0 <= i < nodes.len() ==> slot_wf(nodes, final_tree, boxes, i)
}

/// Joins the two distinct roots `a` and `b`: moves their nodes into the
/// output array at their own slots and appends the union node as a new root.
fn join_pair(
    nodes: &mut Vec<Option<Node>>,
    final_tree: &mut Vec<Node>,
    a: usize,
    b: usize,
    Ghost(boxes): Ghost<Seq<Aabb>>,
    Ghost(num_roots): Ghost<int>,
)
    requires
        building_inv(old(nodes)@, old(final_tree)@, boxes, num_roots),
        num_roots >= 2,
        a < old(nodes)@.len(),
        b < old(nodes)@.len(),
        a != b,
        old(nodes)@[a as int] is Some,
        old(nodes)@[b as int] is Some,
    ensures
        building_inv(final(nodes)@, final(final_tree)@, boxes, num_roots - 1),
        final(nodes)@.len() == old(nodes)@.len() + 1,
        final(final_tree)@.len() == old(final_tree)@.len(),
{
    let ghost n = boxes.len() as int;
    let and: Node = nodes[a].unwrap();
    let bnd: Node = nodes[b].unwrap();
    proof {
        assert(slot_wf(nodes@, final_tree@, boxes, a as int));
        assert(slot_wf(nodes@, final_tree@, boxes, b as int));
    }
    let ub = aabb_union(Aabb { min: and.min, max: and.max }, Aabb { min: bnd.min, max: bnd.max });
    let newnd = Node { min: ub.min, left: a as u32, max: ub.max, right: b as u32 };
    let ghost nodes0 = nodes@;
    let ghost final0 = final_tree@;
    final_tree.set(a, and);
    final_tree.set(b, bnd);
    nodes.set(a, None);
    nodes.set(b, None);
    nodes.push(Some(newnd));
    proof {
        let nodes1 = nodes0.update(a as int, None);
        let nodes2 = nodes1.update(b as int, None);
        lemma_count_update_to_none(nodes0, a as int);
        assert(nodes1[b as int] is Some);
        lemma_count_update_to_none(nodes1, b as int);
        lemma_count_push(nodes2, Some(newnd));
        assert(nodes@ =~= nodes2.push(Some(newnd)));
        assert(count_some(nodes@) == num_roots - 1);

        let len0 = nodes0.len() as int;
        // Old slots keep their well-formedness: nothing they refer to moved.
        assert forall|i: int| 0 <= i < len0 implies slot_wf(
            nodes@,
            final_tree@,
            boxes,
            i,
        ) by {
            assert(slot_wf(nodes0, final0, boxes, i));
            let nd0 = slot_node(nodes0, final0, i);
            if i == a as int || i == b as int {
                // Freshly finalized: the same node, now read from final_tree.
                assert(nodes@[i] is None);
                assert(slot_node(nodes@, final_tree@, i) == nd0);
                if i >= n {
                    // Its children were finalized earlier, so they are not a or b.
                    assert(nodes0[nd0.left as int] is None);
                    assert(nodes0[nd0.right as int] is None);
                }
            } else {
                if nodes0[i] is Some {
                    assert(nodes@[i] == nodes0[i]);
                } else {
                    assert(final_tree@[i] == final0[i]);
                }
                if i >= n {
                    assert(nodes0[nd0.left as int] is None);
                    assert(nodes0[nd0.right as int] is None);
                    assert(final_tree@[nd0.left as int] == final0[nd0.left as int]);
                    assert(final_tree@[nd0.right as int] == final0[nd0.right as int]);
                }
            }
        }
        // The appended join is well formed.
        assert(slot_wf(nodes@, final_tree@, boxes, len0)) by {
            assert(slot_node(nodes@, final_tree@, len0) == newnd);
            assert(node_box(and).is_finite() && node_box(bnd).is_finite());
            assert(final_tree@[a as int] == and);
            assert(final_tree@[b as int] == bnd);
        }
        assert(building_inv(nodes@, final_tree@, boxes, num_roots - 1));
    }
}

/// The highest slot that still holds a root; the chain is seeded from the
/// back, where the freshest joins sit.
fn find_last_active(nodes: &Vec<Option<Node>>) -> (r: usize)
    requires
        count_some(nodes@) >= 1,
    ensures
        r < nodes@.len(),
        nodes@[r as int] is Some,
{
    let mut i: usize = nodes.len();
    while i > 0
        invariant
            i <= nodes@.len(),
            forall|j: int| i <= j < nodes@.len() ==> nodes@[j] is None,
        decreases i,
    {
        i = i - 1;
        if nodes[i].is_some() {
            return i;
        }
    }
    proof {
        lemma_all_none_count(nodes@);
    }
    0
}

/// The active root nearest to `current` by join cost, scanning every other
/// root in slot order. Equal costs keep the earlier slot; costs are compared
/// in the IEEE 754 total order, so the scan is total even on exotic patterns.
fn find_nearest<F: Fn(ScalarOp, u32, u32) -> u32 + Copy>(
    f: F,
    nodes: &Vec<Option<Node>>,
    current: usize,
) -> (r: usize)
    requires
        op_ok(f),
        count_some(nodes@) >= 2,
        current < nodes@.len(),
        nodes@[current as int] is Some,
    ensures
        r < nodes@.len(),
        r != current,
        nodes@[r as int] is Some,
{
    let cur: Node = nodes[current].unwrap();
    let cur_box = Aabb { min: cur.min, max: cur.max };
    let mut best: usize = 0;
    let mut best_cost: u32 = 0;
    let mut found: bool = false;
    let mut j: usize = 0;
    while j < nodes.len()
        invariant
            op_ok(f),
            j <= nodes@.len(),
            found ==> best < nodes@.len() && best != current && nodes@[best as int] is Some,
            !found ==> forall|k: int| 0 <= k < j ==> k == current || nodes@[k] is None,
        decreases nodes@.len() - j,
    {
        if j != current {
            match nodes[j] {
                Some(nb) => {
                    let c = join_cost(f, cur_box, Aabb { min: nb.min, max: nb.max });
                    if !found || !total_le_bits(best_cost, c) {
                        best = j;
                        best_cost = c;
                        found = true;
                    }
                },
                None => {},
            }
        }
        j = j + 1;
    }
    if !found {
        proof {
            lemma_count_unique(nodes@, current as int);
        }
    }
    best
}

/// Builds the tree over the given bounding boxes.
///
/// The output is a flat array of `2n - 1` nodes with the root at index 0:
/// slot `j >= n - 1` is the leaf of input box `2n - 2 - j`, every internal
/// node's children lie strictly behind it, and every internal node's box
/// contains both children's boxes. Which pairs join first is steered by the
/// evaluator's join costs and is not part of the contract.
///
/// The chain loop carries a fuel bound; an evaluator whose cost answers never
/// produce a mutually-nearest pair would otherwise spin forever. When the
/// fuel runs out the remaining roots are joined in slot order, which
/// satisfies the same contract. A genuine arithmetic evaluator never gets
/// near the bound.
pub fn build_tree<F: Fn(ScalarOp, u32, u32) -> u32 + Copy>(f: F, boxes: &Vec<Aabb>) -> (r: Vec<
    Node,
>)
    requires
        op_ok(f),
        1 <= boxes@.len() <= 0x4000_0000,
        forall|i: int| 0 <= i < boxes@.len() ==> (#[trigger] boxes@[i]).is_finite(),
    ensures
        tree_wf(r@, boxes@),
{
    let n = boxes.len();
    let tot = 2 * n - 1;

    // Every input box becomes a root leaf.
    let mut nodes: Vec<Option<Node>> = Vec::new();
    let mut i: usize = 0;
    while i < n
        invariant
            i <= n,
            n == boxes@.len(),
            nodes@.len() == i,
            count_some(nodes@) == i,
            forall|k: int| 0 <= k < i ==> nodes@[k] == Some(leaf_node(boxes@, k)),
        decreases n - i,
    {
        let b = boxes[i];
        let ghost nodes0 = nodes@;
        nodes.push(Some(Node { min: b.min, left: i as u32, max: b.max, right: NO_RIGHT_CHILD }));
        proof {
            lemma_count_push(nodes0, Some(leaf_node(boxes@, i as int)));
        }
        i = i + 1;
    }

    // Finalized nodes move here, each at its own working slot.
    let mut final_tree: Vec<Node> = Vec::new();
    while final_tree.len() < tot
        invariant
            final_tree@.len() <= tot,
        decreases tot - final_tree@.len(),
    {
        final_tree.push(
            Node {
                min: Vec3 { x: 0, y: 0, z: 0 },
                left: NO_RIGHT_CHILD,
                max: Vec3 { x: 0, y: 0, z: 0 },
                right: NO_RIGHT_CHILD,
            },
        );
    }

    let mut num_roots: usize = n;
    // Each entry's nearest neighbor is the next entry.
    let mut chain: Vec<usize> = Vec::new();
    let mut fuel: u64 = 8 * (n as u64) + 32;

    proof {
        assert(building_inv(nodes@, final_tree@, boxes@, num_roots as int)) by {
            assert(forall|k: int|
                0 <= k < nodes@.len() ==> slot_wf(nodes@, final_tree@, boxes@, k));
        }
    }

    while num_roots > 1 && fuel > 0
        invariant
            op_ok(f),
            n == boxes@.len(),
            tot == 2 * n - 1,
            building_inv(nodes@, final_tree@, boxes@, num_roots as int),
            forall|k: int| 0 <= k < chain@.len() ==> (#[trigger] chain@[k]) < nodes@.len(),
        decreases fuel,
    {
        fuel = fuel - 1;

        // Pick the chain top, discarding entries finalized meanwhile; seed
        // the chain with the last root when it is empty.
        let mut current: usize = 0;
        loop
            invariant_except_break
                count_some(nodes@) >= 2,
                forall|k: int| 0 <= k < chain@.len() ==> (#[trigger] chain@[k]) < nodes@.len(),
            ensures
                current < nodes@.len(),
                nodes@[current as int] is Some,
                chain@.len() >= 1,
                chain@.last() == current,
                forall|k: int| 0 <= k < chain@.len() ==> (#[trigger] chain@[k]) < nodes@.len(),
            decreases chain@.len(),
        {
            if chain.len() == 0 {
                let seed = find_last_active(&nodes);
                chain.push(seed);
                current = seed;
                break ;
            }
            let c = chain[chain.len() - 1];
            if nodes[c].is_some() {
                current = c;
                break ;
            }
            chain.pop();
        }

        let nearest = find_nearest(f, &nodes, current);

        if chain.len() >= 2 && nearest == chain[chain.len() - 2] {
            // Mutually nearest: join the pair.
            join_pair(
                &mut nodes,
                &mut final_tree,
                current,
                nearest,
                Ghost(boxes@),
                Ghost(num_roots as int),
            );
            num_roots = num_roots - 1;
            chain.pop();
            chain.pop();
        } else {
            // A closer pair may exist further on: grow the chain.
            chain.push(nearest);
        }
    }

    // Fuel exhaustion fallback: join the remaining roots in slot order.
    while num_roots > 1
        invariant
            n == boxes@.len(),
            tot == 2 * n - 1,
            building_inv(nodes@, final_tree@, boxes@, num_roots as int),
        decreases num_roots,
    {
        let a = find_last_active(&nodes);
        let mut b: usize = 0;
        // A second root exists because at least two remain.
        let mut found: bool = false;
        let mut j: usize = 0;
        while j < nodes.len()
            invariant
                j <= nodes@.len(),
                found ==> b < nodes@.len() && b != a && nodes@[b as int] is Some,
                !found ==> forall|k: int| 0 <= k < j ==> k == a as int || nodes@[k] is None,
            decreases nodes@.len() - j,
        {
            if j != a && !found {
                if nodes[j].is_some() {
                    b = j;
                    found = true;
                }
            }
            j = j + 1;
        }
        if !found {
            proof {
                lemma_count_unique(nodes@, a as int);
            }
        }
        join_pair(&mut nodes, &mut final_tree, a, b, Ghost(boxes@), Ghost(num_roots as int));
        num_roots = num_roots - 1;
    }

    // One root remains, in the last slot; it completes the output array.
    let root_idx = nodes.len() - 1;
    let root: Node = nodes[root_idx].unwrap();
    let ghost nodes_before = nodes@;
    let ghost final_before = final_tree@;
    final_tree.set(root_idx, root);
    nodes.set(root_idx, None);
    proof {
        assert(nodes@.len() == tot);
        assert(root_idx as int == tot - 1);
        lemma_unique_of_count_one(nodes_before, root_idx as int);
        assert forall|k: int| 0 <= k < tot implies slot_wf(nodes@, final_tree@, boxes@, k)
            && nodes@[k] is None by {
            assert(slot_wf(nodes_before, final_before, boxes@, k));
            let nd0 = slot_node(nodes_before, final_before, k);
            if k == root_idx as int {
                assert(nd0 == root);
                assert(slot_node(nodes@, final_tree@, k) == root);
                if k >= n {
                    assert(nd0.left < k && nd0.right < k);
                    assert(final_tree@[nd0.left as int] == final_before[nd0.left as int]);
                    assert(final_tree@[nd0.right as int] == final_before[nd0.right as int]);
                }
            } else {
                assert(nodes_before[k] is None);
                assert(final_tree@[k] == final_before[k]);
                assert(slot_node(nodes@, final_tree@, k) == nd0);
                if k >= n {
                    assert(nd0.left < k < tot - 1 && nd0.right < k);
                    assert(final_tree@[nd0.left as int] == final_before[nd0.left as int]);
                    assert(final_tree@[nd0.right as int] == final_before[nd0.right as int]);
                }
            }
        }
    }

    // Reverse and reflect: the root moves to index 0 and every child index
    // is mirrored so that children stay behind their parents.
    let mut out: Vec<Node> = Vec::new();
    let mut j: usize = 0;
    while j < tot
        invariant
            n == boxes@.len(),
            1 <= n <= 0x4000_0000,
            tot == 2 * n - 1,
            j <= tot,
            out@.len() == j,
            nodes@.len() == tot,
            final_tree@.len() == tot,
            forall|k: int| 0 <= k < tot ==> slot_wf(nodes@, final_tree@, boxes@, k),
            forall|k: int| 0 <= k < tot ==> nodes@[k] is None,
            forall|k: int|
                0 <= k < j ==> out@[k] == reflect_node(final_tree@[tot - 1 - k], tot as int),
        decreases tot - j,
    {
        let nd = final_tree[tot - 1 - j];
        proof {
            assert(slot_wf(nodes@, final_tree@, boxes@, tot - 1 - j));
            assert(slot_node(nodes@, final_tree@, tot - 1 - j) == nd);
        }
        let nd2 = if nd.right != NO_RIGHT_CHILD {
            Node {
                min: nd.min,
                left: (tot as u32) - 1 - nd.left,
                max: nd.max,
                right: (tot as u32) - 1 - nd.right,
            }
        } else {
            nd
        };
        out.push(nd2);
        j = j + 1;
    }

    proof {
        assert forall|k: int| 0 <= k < tot implies tree_node_wf(out@, boxes@, k) by {
            let i = tot - 1 - k;
            assert(slot_wf(nodes@, final_tree@, boxes@, i));
            let nd = final_tree@[i];
            if i >= n {
                assert(slot_wf(nodes@, final_tree@, boxes@, nd.left as int));
                assert(slot_wf(nodes@, final_tree@, boxes@, nd.right as int));
                assert(out@[tot - 1 - nd.left as int] == reflect_node(
                    final_tree@[nd.left as int],
                    tot as int,
                ));
                assert(out@[tot - 1 - nd.right as int] == reflect_node(
                    final_tree@[nd.right as int],
                    tot as int,
                ));
            }
        }
    }
    out
}

/// The root is slot 0: no node's child index points at slot 0, since every
/// child lies strictly behind its parent.
pub proof fn lemma_root_at_zero(tree: Seq<Node>, boxes: Seq<Aabb>)
    requires
        tree_wf(tree, boxes),
    ensures
        forall|j: int|
            0 <= j < tree.len() && tree[j].right != NO_RIGHT_CHILD ==> (#[trigger] tree[j]).left
                > 0 && tree[j].right > 0,
{
    assert forall|j: int|
        0 <= j < tree.len() && tree[j].right != NO_RIGHT_CHILD implies (#[trigger] tree[j]).left > 0
        && tree[j].right > 0 by {
        assert(tree_node_wf(tree, boxes, j));
        if j >= boxes.len() - 1 {
            assert(tree[j] == leaf_node(boxes, 2 * boxes.len() - 2 - j));
        }
    }
}

/// Every input box has exactly one leaf: input `s` sits at slot `2n - 2 - s`,
/// carrying its box.
pub proof fn lemma_leaves_cover_solids(tree: Seq<Node>, boxes: Seq<Aabb>, s: int)
    requires
        tree_wf(tree, boxes),
        boxes.len() <= MAX_TREE_SOLIDS,
        0 <= s < boxes.len(),
    ensures
        tree[2 * boxes.len() - 2 - s].right == NO_RIGHT_CHILD,
        tree[2 * boxes.len() - 2 - s].left == s,
        tree[2 * boxes.len() - 2 - s].min == boxes[s].min,
        tree[2 * boxes.len() - 2 - s].max == boxes[s].max,
{
    assert(tree_node_wf(tree, boxes, 2 * boxes.len() - 2 - s));
}

/// The node as it appears after the root-first reversal of an array of
/// `tot` slots: a leaf is unchanged, a join has both child indices mirrored.
pub open spec fn reflect_node(nd: Node, tot: int) -> Node {
    if nd.right == NO_RIGHT_CHILD {
        nd
    } else {
        Node {
            min: nd.min,
            left: (tot - 1 - nd.left) as u32,
            max: nd.max,
            right: (tot - 1 - nd.right) as u32,
        }
    }
}


/// The bound on how many solids a scene may hold: all node indices must fit
/// the 32-bit fields of [`Node`].
pub const MAX_TREE_SOLIDS: usize = 0x4000_0000;

/// Rejections of [`update_scene`], in the order the checks run.
#[derive(Clone, Copy, PartialEq, Eq, Structural, Debug)]
pub enum SceneError {
    /// No solids were handed in; an empty scene has no tree.
    NoSolids,
    /// There are more solids than node indices can address.
    TooManySolids,
    /// The bounding-box list does not pair up with the solid list.
    CountMismatch,
    /// Some solid's matrix has a non-finite entry.
    SolidNotFinite,
    /// Some bounding box has a non-finite coordinate.
    BoxNotFinite,
}

/// All solids in the list have finite matrices.
pub open spec fn solids_finite(solids: Seq<Solid>) -> bool {
    forall|i: int| 0 <= i < solids.len() ==> matrix_finite((#[trigger] solids[i]).view_m())
}

/// All boxes in the list are finite.
pub open spec fn boxes_finite(boxes: Seq<Aabb>) -> bool {
    forall|i: int| 0 <= i < boxes.len() ==> (#[trigger] boxes[i]).is_finite()
}

/// Validates a scene and builds its tree: every solid must be finite, every
/// bounding box (one per solid, computed by the caller) finite too; then the
/// tree over the boxes is built and is well formed. This is the producer
/// boundary at which invariant violations are reported; the renderer uploads
/// the solids and the returned nodes only on `Ok`.
pub fn update_scene<F: Fn(ScalarOp, u32, u32) -> u32 + Copy>(
    f: F,
    solids: &Vec<Solid>,
    boxes: &Vec<Aabb>,
) -> (r: Result<Vec<Node>, SceneError>)
    requires
        op_ok(f),
    ensures
        r is Ok <==> {
            &&& solids@.len() >= 1
            &&& solids@.len() <= MAX_TREE_SOLIDS
            &&& boxes@.len() == solids@.len()
            &&& solids_finite(solids@)
            &&& boxes_finite(boxes@)
        },
        r is Ok ==> tree_wf(r.unwrap()@, boxes@) && r.unwrap()@.len() == 2 * solids@.len() - 1,
        r == Err::<Vec<Node>, SceneError>(SceneError::NoSolids) <==> solids@.len() == 0,
        r == Err::<Vec<Node>, SceneError>(SceneError::TooManySolids) <==> solids@.len()
            > MAX_TREE_SOLIDS,
        r == Err::<Vec<Node>, SceneError>(SceneError::CountMismatch) <==> 1 <= solids@.len()
            <= MAX_TREE_SOLIDS && boxes@.len() != solids@.len(),
        r == Err::<Vec<Node>, SceneError>(SceneError::SolidNotFinite) <==> 1 <= solids@.len()
            <= MAX_TREE_SOLIDS && boxes@.len() == solids@.len() && !solids_finite(solids@),
        r == Err::<Vec<Node>, SceneError>(SceneError::BoxNotFinite) <==> 1 <= solids@.len()
            <= MAX_TREE_SOLIDS && boxes@.len() == solids@.len() && solids_finite(solids@)
            && !boxes_finite(boxes@),
{
    if solids.len() == 0 {
        return Err(SceneError::NoSolids);
    }
    if solids.len() > MAX_TREE_SOLIDS {
        return Err(SceneError::TooManySolids);
    }
    if boxes.len() != solids.len() {
        return Err(SceneError::CountMismatch);
    }
    let mut i: usize = 0;
    while i < solids.len()
        invariant
            1 <= solids@.len() <= MAX_TREE_SOLIDS,
            boxes@.len() == solids@.len(),
            i <= solids@.len(),
            forall|k: int| 0 <= k < i ==> matrix_finite((#[trigger] solids@[k]).view_m()),
        decreases solids@.len() - i,
    {
        if !solids[i].is_finite() {
            proof {
                assert(!matrix_finite(solids@[i as int].view_m()));
            }
            return Err(SceneError::SolidNotFinite);
        }
        i = i + 1;
    }
    let mut i: usize = 0;
    while i < boxes.len()
        invariant
            1 <= solids@.len() <= MAX_TREE_SOLIDS,
            boxes@.len() == solids@.len(),
            solids_finite(solids@),
            i <= boxes@.len(),
            forall|k: int| 0 <= k < i ==> (#[trigger] boxes@[k]).is_finite(),
        decreases boxes@.len() - i,
    {
        let b = boxes[i];
        if !(crate::fbits::finite_bits(b.min.x) && crate::fbits::finite_bits(b.min.y)
            && crate::fbits::finite_bits(b.min.z) && crate::fbits::finite_bits(b.max.x)
            && crate::fbits::finite_bits(b.max.y) && crate::fbits::finite_bits(b.max.z)) {
            proof {
                assert(!boxes@[i as int].is_finite());
            }
            return Err(SceneError::BoxNotFinite);
        }
        i = i + 1;
    }
    Ok(build_tree(f, boxes))
}

} // verus!
