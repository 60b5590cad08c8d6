//! Prisms: a 2-D polygon loop extruded vertically into a closed solid, built
//! from a bottom ring, a top ring, one side-wall quad per edge, and a
//! triangulated cap at each end. Every buffer of the result is pinned in the
//! contracts: the index buffer exactly, the vertex attributes over the named
//! results of the trusted vector calls.

use vstd::prelude::*;

use crate::MeshData;
use crate::geom::{add_of, neg_unit_y_of, plane_of, pos_mask_of, unit_y_of, vec2_to_plane,
    vec3_add, vec3_neg_unit_y, vec3_pos_mask, vec3_unit_y, vec3_zero_mask, zero_mask_of};
use crate::polygon::{cap_indices, cap_indices_spec, convex_loop, lemma_cap_indices_valid,
    strictly_convex};
use crate::util::{FlatTrapezeIndices, InvalidInput, offset_indices, reverse_emission,
    trapeze_triangles};

verus! {

/// A polygon loop together with the vertical offset of its top face. The
/// offset is kept as a vector so that the opaque scalar never enters the
/// verified core; `new` only accepts an offset of the shape `(0, h, 0)` with
/// `h > 0`.
pub struct Prism {
    pub height: glam::Vec3,
    pub points: Vec<glam::Vec2>,
}

/// What `Prism::new` demands of the vertical offset: strictly positive on
/// the `y` axis and exactly zero on `x` and `z`, as glam's sign predicates
/// report it.
pub open spec fn vertical_up(height: glam::Vec3) -> bool {
    &&& pos_mask_of(height).1
    &&& zero_mask_of(height).0
    &&& zero_mask_of(height).2
}

/// The corner indices of the side-wall quad over edge `i -> (i + 1) mod n` of
/// an `n`-vertex loop: the edge's two bottom-ring vertices below its two
/// top-ring vertices, which sit `n` places later in the vertex buffer.
pub open spec fn wall_corners(n: int, i: int) -> FlatTrapezeIndices {
    FlatTrapezeIndices {
        lower_left: i as u32,
        lower_right: (if i + 1 == n { 0int } else { i + 1 }) as u32,
        upper_left: (n + i) as u32,
        upper_right: (n + if i + 1 == n { 0int } else { i + 1 }) as u32,
    }
}

/// The side-wall index list of the first `k` edges of an `n`-vertex loop:
/// each edge's quad contributes its two triangles in edge order.
pub open spec fn wall_indices_spec(n: int, k: int) -> Seq<u32>
    decreases k,
{
    if k <= 0 {
        Seq::empty()
    } else {
        wall_indices_spec(n, k - 1) + trapeze_triangles(wall_corners(n, k - 1))
    }
}

/// Shape of the side walls: six indices per edge, every index below `2n`.
pub proof fn lemma_wall_indices_shape(n: int, k: int)
    requires
        0 <= k <= n,
        2 * n <= u32::MAX,
    ensures
        wall_indices_spec(n, k).len() == 6 * k,
        forall|i: int| 0 <= i < 6 * k ==> #[trigger] wall_indices_spec(n, k)[i] < 2 * n,
    decreases k,
{
    if k > 0 {
        lemma_wall_indices_shape(n, k - 1);
        assert forall|i: int| 0 <= i < 6 * k implies #[trigger] wall_indices_spec(n, k)[i] < 2
            * n by {
            if i < 6 * (k - 1) {
                assert(wall_indices_spec(n, k)[i] == wall_indices_spec(n, k - 1)[i]);
            } else {
                assert(wall_indices_spec(n, k)[i] == trapeze_triangles(wall_corners(n, k - 1))[i - 6
                    * (k - 1)]);
            }
        }
    }
}

/// What the prism builder guarantees of every mesh it returns: `2n` vertices
/// — the bottom ring in the ground plane, then the top ring shifted by the
/// offset, with downward and upward normals and raw-coordinate UVs — and an
/// index buffer laid out as the `6n` side-wall indices, the cap
/// triangulation re-emitted in reverse for the downward-facing bottom cap,
/// and the same cap translated by `n` for the upward-facing top cap —
/// `2n + 2(n - 2)` triangles in all.
pub open spec fn prism_mesh_ok(m: MeshData, points: Seq<glam::Vec2>, height: glam::Vec3) -> bool {
    let n = points.len() as int;
    &&& m.positions@.len() == 2 * n
    &&& m.normals@.len() == 2 * n
    &&& m.uvs@.len() == 2 * n
    &&& forall|i: int| 0 <= i < n ==> #[trigger] m.positions@[i] == plane_of(points[i])
    &&& forall|i: int|
        n <= i < 2 * n ==> #[trigger] m.positions@[i] == add_of(plane_of(points[i - n]), height)
    &&& forall|i: int| 0 <= i < n ==> #[trigger] m.normals@[i] == neg_unit_y_of(())
    &&& forall|i: int| n <= i < 2 * n ==> #[trigger] m.normals@[i] == unit_y_of(())
    &&& forall|i: int| 0 <= i < n ==> #[trigger] m.uvs@[i] == points[i]
    &&& forall|i: int| n <= i < 2 * n ==> #[trigger] m.uvs@[i] == points[i - n]
    &&& m.indices@.len() == 12 * n - 12
    &&& m.indices@.subrange(0, 6 * n) == wall_indices_spec(n, n)
    &&& m.indices@.subrange(6 * n, 9 * n - 6) == cap_indices_spec(n).reverse()
    &&& forall|j: int|
        0 <= j < 3 * (n - 2) ==> #[trigger] m.indices@[9 * n - 6 + j] == cap_indices_spec(n)[j]
            + n
    &&& m.wf()
}

/// Law: a prism mesh over an `n`-vertex loop has exactly `2n` vertices and
/// `2n + 2(n - 2)` triangles: two wall triangles per edge plus the two
/// triangulated caps.
pub proof fn lemma_prism_counts(m: MeshData, points: Seq<glam::Vec2>, height: glam::Vec3)
    requires
        3 <= points.len(),
        prism_mesh_ok(m, points, height),
    ensures
        m.positions@.len() == 2 * points.len(),
        m.indices@.len() == 3 * (2 * points.len() + 2 * (points.len() - 2)),
{
}

/// Law: every side-wall quad of an `n`-vertex loop has four distinct
/// corners, so its two triangles share exactly the two vertices of the
/// `upper_right`-`lower_left` diagonal and together cover the quad.
pub proof fn lemma_wall_quads_share_diagonals(n: int, i: int)
    requires
        3 <= n,
        0 <= i < n,
        2 * n <= u32::MAX,
    ensures
        ({
            let t = wall_corners(n, i);
            let s = trapeze_triangles(t);
            s.subrange(0, 3).to_set().intersect(s.subrange(3, 6).to_set())
                == set![t.upper_right, t.lower_left]
        }),
{
    crate::util::lemma_trapeze_shared_diagonal(wall_corners(n, i));
}

/// Law: the two cap regions of a prism mirror each other: reading the bottom
/// cap back to front and translating it by `n` gives exactly the top cap —
/// the index form of the two caps facing opposite ways over the same
/// triangulation.
pub proof fn lemma_prism_caps_mirror(m: MeshData, points: Seq<glam::Vec2>, height: glam::Vec3)
    requires
        3 <= points.len(),
        2 * points.len() <= u32::MAX,
        prism_mesh_ok(m, points, height),
    ensures
        forall|j: int|
            0 <= j < 3 * (points.len() - 2) ==> #[trigger] m.indices@[9 * points.len() - 6 + j]
                == m.indices@[9 * points.len() - 7 - j] + points.len(),
{
    let n = points.len() as int;
    lemma_cap_indices_valid(n);
    let cap = cap_indices_spec(n);
    assert forall|j: int|
        0 <= j < 3 * (n - 2) implies #[trigger] m.indices@[9 * n - 6 + j] == m.indices@[9 * n - 7
        - j] + n by {
        let b = 3 * (n - 2) - 1 - j;
        assert(m.indices@.subrange(6 * n, 9 * n - 6)[b] == cap.reverse()[b]);
        assert(cap.reverse()[b] == cap[j]);
        assert(m.indices@[9 * n - 6 + j] == cap[j] + n);
    }
}

/// Law: a rebuild from the same loop and offset yields identical buffers —
/// the prism is a pure function of its input, every buffer pinned over the
/// input and the named results of the trusted calls.
pub proof fn lemma_prism_build_deterministic(
    m1: MeshData,
    m2: MeshData,
    points: Seq<glam::Vec2>,
    height: glam::Vec3,
)
    requires
        3 <= points.len(),
        prism_mesh_ok(m1, points, height),
        prism_mesh_ok(m2, points, height),
    ensures
        m1.positions@ == m2.positions@,
        m1.normals@ == m2.normals@,
        m1.uvs@ == m2.uvs@,
        m1.indices@ == m2.indices@,
{
    let n = points.len() as int;
    assert(m1.positions@ =~= m2.positions@);
    assert(m1.normals@ =~= m2.normals@);
    assert(m1.uvs@ =~= m2.uvs@);
    assert forall|i: int| 0 <= i < m1.indices@.len() implies m1.indices@[i] == m2.indices@[i] by {
        if i < 6 * n {
            assert(m1.indices@.subrange(0, 6 * n)[i] == m2.indices@.subrange(0, 6 * n)[i]);
        } else if i < 9 * n - 6 {
            assert(m1.indices@.subrange(6 * n, 9 * n - 6)[i - 6 * n] == m2.indices@.subrange(
                6 * n,
                9 * n - 6,
            )[i - 6 * n]);
        } else {
            assert(m1.indices@[9 * n - 6 + (i - (9 * n - 6))] == cap_indices_spec(n)[i - (9 * n
                - 6)] + n);
            assert(m2.indices@[9 * n - 6 + (i - (9 * n - 6))] == cap_indices_spec(n)[i - (9 * n
                - 6)] + n);
        }
    }
    assert(m1.indices@ =~= m2.indices@);
}

impl Prism {
    /// Checks the caller's contract at construction time: at least three
    /// points, and a strictly upward vertical offset. Violations are
    /// reported as [`InvalidInput`] rather than aborting, so bad input can
    /// never crash the host.
    pub fn new(height: glam::Vec3, points: Vec<glam::Vec2>) -> (r: Result<Prism, InvalidInput>)
        ensures
            r is Ok <==> points@.len() >= 3 && vertical_up(height),
            r is Ok ==> r.unwrap().points@ == points@ && r.unwrap().height == height,
    {
        if points.len() < 3 {
            return Err(InvalidInput);
        }
        let up_mask = vec3_pos_mask(height);
        let zero_mask = vec3_zero_mask(height);
        if !(up_mask.1 && zero_mask.0 && zero_mask.2) {
            return Err(InvalidInput);
        }
        Ok(Prism { height, points })
    }

    /// Builds the closed solid: bottom ring at ground level with downward
    /// normals, top ring shifted by the vertical offset with upward normals,
    /// raw-coordinate UVs on both rings, two wall triangles per edge, and the
    /// two caps. Succeeds exactly on loops of at least three points that the
    /// convexity test accepts; everything else is [`InvalidInput`].
    pub fn try_build(&self) -> (r: Result<MeshData, InvalidInput>)
        requires
            2 * self.points@.len() <= u32::MAX,
            12 * self.points@.len() <= usize::MAX,
        ensures
            r is Ok <==> self.points@.len() >= 3 && convex_loop(self.points@),
            r is Ok ==> prism_mesh_ok(r.unwrap(), self.points@, self.height),
    {
        let n = self.points.len();
        if n < 3 {
            return Err(InvalidInput);
        }
        if !strictly_convex(&self.points) {
            return Err(InvalidInput);
        }

        let ghost gn: int = n as int;
        let mut m = MeshData::new(2 * n, 6 * n);

        let mut i: usize = 0;
        while i < n
            invariant
                n == self.points@.len(),
                i <= n,
                m.positions@.len() == i,
                m.normals@.len() == i,
                m.uvs@.len() == i,
                m.indices@.len() == 0,
                forall|j: int| 0 <= j < i ==> #[trigger] m.positions@[j] == plane_of(
                    self.points@[j]),
                forall|j: int| 0 <= j < i ==> #[trigger] m.normals@[j] == neg_unit_y_of(()),
                forall|j: int| 0 <= j < i ==> #[trigger] m.uvs@[j] == self.points@[j],
            decreases n - i,
        {
            let p = self.points[i];
            m.positions.push(vec2_to_plane(p));
            m.normals.push(vec3_neg_unit_y());
            m.uvs.push(p);
            i = i + 1;
        }

        i = 0;
        while i < n
            invariant
                n == self.points@.len(),
                i <= n,
                m.positions@.len() == n + i,
                m.normals@.len() == n + i,
                m.uvs@.len() == n + i,
                m.indices@.len() == 0,
                forall|j: int| 0 <= j < n ==> #[trigger] m.positions@[j] == plane_of(
                    self.points@[j]),
                forall|j: int| 0 <= j < n ==> #[trigger] m.normals@[j] == neg_unit_y_of(()),
                forall|j: int| 0 <= j < n ==> #[trigger] m.uvs@[j] == self.points@[j],
                forall|j: int| n <= j < n + i ==> #[trigger] m.positions@[j] == add_of(
                    plane_of(self.points@[j - n]), self.height),
                forall|j: int| n <= j < n + i ==> #[trigger] m.normals@[j] == unit_y_of(()),
                forall|j: int| n <= j < n + i ==> #[trigger] m.uvs@[j] == self.points@[j - n],
            decreases n - i,
        {
            let p = self.points[i];
            m.positions.push(vec3_add(vec2_to_plane(p), self.height));
            m.normals.push(vec3_unit_y());
            m.uvs.push(p);
            i = i + 1;
        }

        i = 0;
        while i < n
            invariant
                n == self.points@.len(),
                2 * n <= u32::MAX,
                i <= n,
                m.positions@.len() == 2 * n,
                m.normals@.len() == 2 * n,
                m.uvs@.len() == 2 * n,
                forall|j: int| 0 <= j < n ==> #[trigger] m.positions@[j] == plane_of(
                    self.points@[j]),
                forall|j: int| 0 <= j < n ==> #[trigger] m.normals@[j] == neg_unit_y_of(()),
                forall|j: int| 0 <= j < n ==> #[trigger] m.uvs@[j] == self.points@[j],
                forall|j: int| n <= j < 2 * n ==> #[trigger] m.positions@[j] == add_of(
                    plane_of(self.points@[j - n]), self.height),
                forall|j: int| n <= j < 2 * n ==> #[trigger] m.normals@[j] == unit_y_of(()),
                forall|j: int| n <= j < 2 * n ==> #[trigger] m.uvs@[j] == self.points@[j - n],
                m.indices@ == wall_indices_spec(gn, i as int),
                gn == n as int,
            decreases n - i,
        {
            let succ = if i + 1 == n { 0 } else { i + 1 };
            let quad = FlatTrapezeIndices {
                lower_left: i as u32,
                lower_right: succ as u32,
                upper_left: (n + i) as u32,
                upper_right: (n + succ) as u32,
            };
            proof {
                assert(quad == wall_corners(gn, i as int));
            }
            quad.generate_triangles(&mut m.indices);
            i = i + 1;
        }

        let cap = cap_indices(n);
        proof {
            lemma_cap_indices_valid(gn);
        }
        let mut bottom = reverse_emission(&cap);
        let mut top = offset_indices(&cap, n as u32);
        let ghost top_seq: Seq<u32> = top@;
        m.indices.append(&mut bottom);
        m.indices.append(&mut top);

        proof {
            lemma_wall_indices_shape(gn, gn);
            assert(m.indices@.len() == 12 * gn - 12);
            assert(m.indices@.subrange(0, 6 * gn) =~= wall_indices_spec(gn, gn));
            assert(m.indices@.subrange(6 * gn, 9 * gn - 6) =~= cap_indices_spec(gn).reverse());
            assert forall|j: int| 0 <= j < 3 * (gn - 2) implies #[trigger] m.indices@[9 * gn - 6
                + j] == cap_indices_spec(gn)[j] + gn by {
                assert(m.indices@[9 * gn - 6 + j] == top_seq[j]);
            }
            assert forall|i2: int| 0 <= i2 < m.indices@.len() implies m.indices@[i2] < m.positions@.len() by {
                if i2 < 6 * gn {
                    assert(m.indices@[i2] == wall_indices_spec(gn, gn)[i2]);
                } else if i2 < 9 * gn - 6 {
                    let j = i2 - 6 * gn;
                    assert(m.indices@[i2] == cap_indices_spec(gn).reverse()[j]);
                    assert(cap_indices_spec(gn).reverse()[j] == cap_indices_spec(gn)[3 * (gn - 2)
                        - 1 - j]);
                } else {
                    let j = i2 - (9 * gn - 6);
                    assert(m.indices@[9 * gn - 6 + j] == cap_indices_spec(gn)[j] + gn);
                }
            }
        }
        Ok(m)
    }
}

} // verus!
