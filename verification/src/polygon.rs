//! Flat polygon caps: an ordered, implicitly closed 2-D point loop turned
//! into a one-sided mesh lying in the ground plane, facing up.
//!
//! Triangulation is a deterministic fan around the first vertex, in O(n):
//! the loop must therefore be strictly convex, which the builder checks by
//! testing that every consecutive edge pair turns the same way. Non-convex,
//! self-intersecting and degenerate (repeated or collinear vertices) loops
//! are rejected as [`InvalidInput`]; this also rules out loops whose bounding
//! extent is flat on an axis, so the UV normalisation below never divides by
//! a zero span. The convexity decision and every vertex attribute are pinned
//! in the contracts over the named results of the trusted vector calls.

use vstd::prelude::*;

use crate::MeshData;
use crate::geom::{cross_of, div2_of, limit_max_of, limit_min_of, max_of, min_of, neg_mask_of,
    plane_of, pos_mask_of, sub2_of, sub_of, unit_y_of, vec2_div, vec2_sub, vec2_to_plane,
    vec3_cross, vec3_neg_mask, vec3_pos_mask, vec3_sub, vec3_unit_y, vec3_xz, xz_of};
use crate::util::{Extent, InvalidInput, flip_triples, lemma_flip_triples_bound,
    lemma_flip_triples_shape, reverse_winding};

verus! {

/// An ordered loop of 2-D points; the last point connects back to the first.
pub struct Polygon {
    pub points: Vec<glam::Vec2>,
}

/// The turn at vertex `i + 1` of the loop: the cross product of the edge into
/// it and the edge out of it, both taken in the ground plane.
pub open spec fn turn_of(points: Seq<glam::Vec2>, i: int) -> glam::Vec3 {
    let n = points.len() as int;
    let succ = if i + 1 == n { 0int } else { i + 1 };
    let succ2 = if i + 2 >= n { i + 2 - n } else { i + 2 };
    cross_of(
        sub_of(plane_of(points[succ]), plane_of(points[i])),
        sub_of(plane_of(points[succ2]), plane_of(points[succ])),
    )
}

/// Every turn of the loop rises out of the ground plane: the vertical
/// component of each turn is strictly positive.
pub open spec fn loop_turns_left(points: Seq<glam::Vec2>) -> bool {
    forall|i: int| 0 <= i < points.len() ==> (#[trigger] pos_mask_of(turn_of(points, i))).1
}

/// Every turn of the loop sinks below the ground plane.
pub open spec fn loop_turns_right(points: Seq<glam::Vec2>) -> bool {
    forall|i: int| 0 <= i < points.len() ==> (#[trigger] neg_mask_of(turn_of(points, i))).1
}

/// A strictly convex loop: all turns strictly the same way. A zero turn
/// (collinear or repeated vertices) fails both sides.
pub open spec fn convex_loop(points: Seq<glam::Vec2>) -> bool {
    loop_turns_left(points) || loop_turns_right(points)
}

/// The bounding-extent minimum after folding the first `k` points, embedded
/// in the ground plane, into a fresh extent.
pub open spec fn extent_min_fold(points: Seq<glam::Vec2>, k: int) -> glam::Vec3
    decreases k,
{
    if k <= 0 {
        limit_max_of(())
    } else {
        min_of(extent_min_fold(points, k - 1), plane_of(points[k - 1]))
    }
}

/// The bounding-extent maximum after folding the first `k` points.
pub open spec fn extent_max_fold(points: Seq<glam::Vec2>, k: int) -> glam::Vec3
    decreases k,
{
    if k <= 0 {
        limit_min_of(())
    } else {
        max_of(extent_max_fold(points, k - 1), plane_of(points[k - 1]))
    }
}

/// The UV of vertex `i` of a flat cap: the point, shifted and scaled by the
/// loop's bounding extent so the loop fills the unit square.
pub open spec fn cap_uv_of(points: Seq<glam::Vec2>, i: int) -> glam::Vec2 {
    let n = points.len() as int;
    let lo = xz_of(extent_min_fold(points, n));
    let span = sub2_of(xz_of(extent_max_fold(points, n)), lo);
    div2_of(sub2_of(points[i], lo), span)
}

/// The first `k` triples of the fan around vertex 0, in the triangulator's
/// natural emission order: triple `t` is `(0, t + 1, t + 2)`.
pub open spec fn fan_indices_spec(k: int) -> Seq<u32>
    decreases k,
{
    if k <= 0 {
        Seq::empty()
    } else {
        fan_indices_spec(k - 1) + seq![0u32, (k) as u32, (k + 1) as u32]
    }
}

/// Shape of the fan: `k` triples, every index at most `k + 1`.
pub proof fn lemma_fan_indices_shape(k: int)
    requires
        0 <= k,
        k + 1 <= u32::MAX,
    ensures
        fan_indices_spec(k).len() == 3 * k,
        forall|i: int| 0 <= i < 3 * k ==> #[trigger] fan_indices_spec(k)[i] <= k + 1,
    decreases k,
{
    if k > 0 {
        lemma_fan_indices_shape(k - 1);
        assert forall|i: int| 0 <= i < 3 * k implies #[trigger] fan_indices_spec(k)[i] <= k + 1 by {
            if i < 3 * (k - 1) {
                assert(fan_indices_spec(k)[i] == fan_indices_spec(k - 1)[i]);
            } else {
                assert(fan_indices_spec(k)[i] == seq![0u32, k as u32, (k + 1) as u32][i - 3 * (k
                    - 1)]);
            }
        }
    }
}

/// The finished cap index list for an `n`-vertex loop: the fan of `n - 2`
/// triples with each triple's winding flipped, as the cap emits it.
pub open spec fn cap_indices_spec(n: int) -> Seq<u32> {
    flip_triples(fan_indices_spec(n - 2), n - 2)
}

/// Law: for every loop of `n >= 3` vertices the cap triangulation has exactly
/// `n - 2` triangles — `3 * (n - 2)` indices — and every emitted index is a
/// valid offset below `n`.
pub proof fn lemma_cap_indices_valid(n: int)
    requires
        3 <= n <= u32::MAX,
    ensures
        cap_indices_spec(n).len() == 3 * (n - 2),
        forall|i: int| 0 <= i < 3 * (n - 2) ==> #[trigger] cap_indices_spec(n)[i] < n,
{
    lemma_fan_indices_shape(n - 2);
    lemma_flip_triples_shape(fan_indices_spec(n - 2), n - 2);
    assert forall|i: int| 0 <= i < fan_indices_spec(n - 2).len() implies #[trigger] fan_indices_spec(
        n - 2,
    )[i] < n by {
        assert(fan_indices_spec(n - 2)[i] <= n - 1);
    }
    lemma_flip_triples_bound(fan_indices_spec(n - 2), n - 2, n as u32);
}

/// Emits the natural fan triangulation of an `n`-vertex loop: triples
/// `(0, i + 1, i + 2)` for `i` in `0 .. n - 2`, before winding correction.
fn fan_indices(n: usize) -> (r: Vec<u32>)
    requires
        3 <= n <= u32::MAX,
    ensures
        r@ == fan_indices_spec(n - 2),
{
    let mut r: Vec<u32> = Vec::new();
    let mut i: usize = 0;
    while i < n - 2
        invariant
            3 <= n <= u32::MAX,
            i <= n - 2,
            r@ == fan_indices_spec(i as int),
        decreases n - 2 - i,
    {
        r.push(0);
        r.push((i + 1) as u32);
        r.push((i + 2) as u32);
        i = i + 1;
        proof {
            assert(r@ =~= fan_indices_spec(i as int));
        }
    }
    r
}

/// Whether every consecutive edge pair of the loop turns strictly the same
/// way, exactly as [`convex_loop`] states it over the named results of the
/// trusted sign predicates.
pub(crate) fn strictly_convex(points: &Vec<glam::Vec2>) -> (r: bool)
    requires
        points@.len() >= 3,
    ensures
        r == convex_loop(points@),
{
    let n = points.len();
    let mut all_left = true;
    let mut all_right = true;
    let mut i: usize = 0;
    while i < n
        invariant
            n == points@.len(),
            3 <= n,
            i <= n,
            all_left == (forall|j: int|
                0 <= j < i ==> (#[trigger] pos_mask_of(turn_of(points@, j))).1),
            all_right == (forall|j: int|
                0 <= j < i ==> (#[trigger] neg_mask_of(turn_of(points@, j))).1),
        decreases n - i,
    {
        let succ = if i + 1 == n { 0 } else { i + 1 };
        let succ2 = if succ + 1 == n { 0 } else { succ + 1 };
        let a = vec2_to_plane(points[i]);
        let b = vec2_to_plane(points[succ]);
        let c = vec2_to_plane(points[succ2]);
        let turn = vec3_cross(vec3_sub(b, a), vec3_sub(c, b));
        proof {
            assert(turn == turn_of(points@, i as int));
        }
        let left = vec3_pos_mask(turn).1;
        let right = vec3_neg_mask(turn).1;
        all_left = all_left && left;
        all_right = all_right && right;
        i = i + 1;
        proof {
            if all_left {
                assert forall|j: int|
                    0 <= j < i implies (#[trigger] pos_mask_of(turn_of(points@, j))).1 by {}
            }
            if all_right {
                assert forall|j: int|
                    0 <= j < i implies (#[trigger] neg_mask_of(turn_of(points@, j))).1 by {}
            }
        }
    }
    all_left || all_right
}

/// Emits the finished cap index list for an `n`-vertex loop: the fan
/// triangulation with its winding corrected, exactly `cap_indices_spec(n)`.
/// This is the triangulator the cap and prism builders share.
pub fn cap_indices(n: usize) -> (r: Vec<u32>)
    requires
        3 <= n <= u32::MAX,
    ensures
        r@ == cap_indices_spec(n as int),
{
    let fan = fan_indices(n);
    proof {
        lemma_fan_indices_shape(n as int - 2);
    }
    let r = reverse_winding(&fan);
    r
}

/// What the flat-cap builder guarantees of every mesh it returns: one vertex
/// per input point with its position in the ground plane, an upward normal
/// and the extent-normalised UV, the exact fan cap index list, and
/// well-formedness.
pub open spec fn cap_mesh_ok(m: MeshData, points: Seq<glam::Vec2>) -> bool {
    let n = points.len() as int;
    &&& m.positions@.len() == n
    &&& m.normals@.len() == n
    &&& m.uvs@.len() == n
    &&& forall|i: int| 0 <= i < n ==> #[trigger] m.positions@[i] == plane_of(points[i])
    &&& forall|i: int| 0 <= i < n ==> #[trigger] m.normals@[i] == unit_y_of(())
    &&& forall|i: int| 0 <= i < n ==> #[trigger] m.uvs@[i] == cap_uv_of(points, i)
    &&& m.indices@ == cap_indices_spec(n)
    &&& m.wf()
}

/// Law: a rebuild from the same loop yields identical buffers — the cap is a
/// pure function of its input, every buffer pinned over the input and the
/// named results of the trusted calls.
pub proof fn lemma_cap_build_deterministic(m1: MeshData, m2: MeshData, points: Seq<glam::Vec2>)
    requires
        cap_mesh_ok(m1, points),
        cap_mesh_ok(m2, points),
    ensures
        m1.positions@ == m2.positions@,
        m1.normals@ == m2.normals@,
        m1.uvs@ == m2.uvs@,
        m1.indices@ == m2.indices@,
{
    assert(m1.positions@ =~= m2.positions@);
    assert(m1.normals@ =~= m2.normals@);
    assert(m1.uvs@ =~= m2.uvs@);
}

impl Polygon {
    /// Builds the flat cap: positions `(x, 0, y)`, upward normals, UVs
    /// normalised into the unit square by the loop's bounding extent, and the
    /// winding-corrected fan index list. Succeeds exactly on loops of at
    /// least three points that the convexity test accepts; everything else is
    /// [`InvalidInput`].
    pub fn try_build(&self) -> (r: Result<MeshData, InvalidInput>)
        requires
            self.points@.len() <= u32::MAX,
        ensures
            r is Ok <==> self.points@.len() >= 3 && convex_loop(self.points@),
            r is Ok ==> cap_mesh_ok(r.unwrap(), self.points@),
    {
        let n = self.points.len();
        if n < 3 {
            return Err(InvalidInput);
        }
        if !strictly_convex(&self.points) {
            return Err(InvalidInput);
        }

        let mut extent = Extent::new();
        let mut i: usize = 0;
        while i < n
            invariant
                n == self.points@.len(),
                i <= n,
                extent.min == extent_min_fold(self.points@, i as int),
                extent.max == extent_max_fold(self.points@, i as int),
            decreases n - i,
        {
            extent.extend_to_include(vec2_to_plane(self.points[i]));
            i = i + 1;
        }
        let lo = vec3_xz(extent.min);
        let span = vec2_sub(vec3_xz(extent.max), lo);

        let mut m = MeshData::new(n, n);
        i = 0;
        while i < n
            invariant
                n == self.points@.len(),
                i <= n,
                lo == xz_of(extent_min_fold(self.points@, n as int)),
                span == sub2_of(xz_of(extent_max_fold(self.points@, n as int)), lo),
                m.positions@.len() == i,
                m.normals@.len() == i,
                m.uvs@.len() == i,
                m.indices@.len() == 0,
                forall|j: int| 0 <= j < i ==> #[trigger] m.positions@[j] == plane_of(
                    self.points@[j]),
                forall|j: int| 0 <= j < i ==> #[trigger] m.normals@[j] == unit_y_of(()),
                forall|j: int| 0 <= j < i ==> #[trigger] m.uvs@[j] == cap_uv_of(self.points@, j),
            decreases n - i,
        {
            let p = self.points[i];
            m.positions.push(vec2_to_plane(p));
            m.normals.push(vec3_unit_y());
            m.uvs.push(vec2_div(vec2_sub(p, lo), span));
            i = i + 1;
        }

        m.indices = cap_indices(n);
        proof {
            lemma_cap_indices_valid(n as int);
        }
        Ok(m)
    }
}

} // verus!
