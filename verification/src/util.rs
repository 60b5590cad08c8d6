//! Shared pieces of the mesh builders: the error kind, the side-wall quad
//! indexer, the bounding extent, and the named index-sequence transforms that
//! the winding rules are built from.

use vstd::prelude::*;

use crate::geom::{limit_max_of, limit_min_of, max_of, midpoint_of, min_of, sub_of, vec3_limit_max,
    vec3_limit_min, vec3_max, vec3_midpoint, vec3_min, vec3_sub};

verus! {

/// A polygon loop failed validation or could not be decomposed into
/// triangles: fewer than three vertices, repeated or collinear vertices, or a
/// boundary the chosen strategy cannot cover.
#[derive(Clone, Copy, Debug, PartialEq, Eq, Structural)]
pub struct InvalidInput;

/// The four vertex-buffer indices of one flat side-wall quad of an extrusion,
/// laid out as
///
/// ```text
/// upper_left ---- upper_right
///     |                |
/// lower_left ---- lower_right
/// ```
#[derive(Clone, Copy, Debug, PartialEq, Eq, Structural)]
pub struct FlatTrapezeIndices {
    pub lower_left: u32,
    pub upper_left: u32,
    pub lower_right: u32,
    pub upper_right: u32,
}

/// The six indices covering a side-wall quad: the fixed triangle pair
/// `(upper_left, upper_right, lower_left)`, `(upper_right, lower_right,
/// lower_left)`, split along the diagonal `upper_right`-`lower_left`.
pub open spec fn trapeze_triangles(t: FlatTrapezeIndices) -> Seq<u32> {
    seq![
        t.upper_left,
        t.upper_right,
        t.lower_left,
        t.upper_right,
        t.lower_right,
        t.lower_left,
    ]
}

impl FlatTrapezeIndices {
    /// Appends the two triangles that cover the quad, in the fixed order and
    /// winding that keeps every side wall consistent.
    pub fn generate_triangles(&self, indices: &mut Vec<u32>)
        ensures
            final(indices)@ == old(indices)@ + trapeze_triangles(*self),
    {
        indices.push(self.upper_left);
        indices.push(self.upper_right);
        indices.push(self.lower_left);
        indices.push(self.upper_right);
        indices.push(self.lower_right);
        indices.push(self.lower_left);
        proof {
            assert(indices@ =~= old(indices)@ + trapeze_triangles(*self));
        }
    }
}

/// Law: when the four corners of a quad are distinct, its two triangles share
/// exactly the two vertices of the `upper_right`-`lower_left` diagonal, so
/// together they cover the quad with one shared edge.
pub proof fn lemma_trapeze_shared_diagonal(t: FlatTrapezeIndices)
    requires
        t.lower_left != t.lower_right,
        t.lower_left != t.upper_left,
        t.lower_left != t.upper_right,
        t.lower_right != t.upper_left,
        t.lower_right != t.upper_right,
        t.upper_left != t.upper_right,
    ensures
        ({
            let s = trapeze_triangles(t);
            s.subrange(0, 3).to_set().intersect(s.subrange(3, 6).to_set())
                == set![t.upper_right, t.lower_left]
        }),
{
    let s = trapeze_triangles(t);
    let first = s.subrange(0, 3);
    let second = s.subrange(3, 6);
    assert(first =~= seq![t.upper_left, t.upper_right, t.lower_left]);
    assert(second =~= seq![t.upper_right, t.lower_right, t.lower_left]);
    assert forall|v: u32|
        first.to_set().intersect(second.to_set()).contains(v)
            <==> set![t.upper_right, t.lower_left].contains(v) by {
        assert(first.to_set().contains(v) <==> (exists|i: int|
            0 <= i < first.len() && first[i] == v));
        assert(second.to_set().contains(v) <==> (exists|i: int|
            0 <= i < second.len() && second[i] == v));
        if v == t.upper_right {
            assert(first[1] == v && second[0] == v);
        }
        if v == t.lower_left {
            assert(first[2] == v && second[2] == v);
        }
    }
    assert(first.to_set().intersect(second.to_set())
        =~= set![t.upper_right, t.lower_left]);
}

/// An axis-aligned bounding box, widened monotonically by
/// `extend_to_include`; fresh instances start inverted (min at the largest
/// finite value, max at the smallest) so the first point always wins. The
/// contracts pin each bound as the named fold of the points over glam's
/// componentwise min/max; callers must feed at least one point before
/// reading the bounds.
pub struct Extent {
    pub min: glam::Vec3,
    pub max: glam::Vec3,
}

impl Extent {
    /// A fresh, inverted extent.
    pub fn new() -> (r: Extent)
        ensures
            r.min == limit_max_of(()),
            r.max == limit_min_of(()),
    {
        Extent { min: vec3_limit_max(), max: vec3_limit_min() }
    }

    /// Widens the extent so that it contains `v`, one axis at a time.
    pub fn extend_to_include(&mut self, v: glam::Vec3)
        ensures
            final(self).min == min_of(old(self).min, v),
            final(self).max == max_of(old(self).max, v),
    {
        self.min = vec3_min(self.min, v);
        self.max = vec3_max(self.max, v);
    }

    /// The componentwise size of the extent, `max - min`.
    pub fn lengths(&self) -> (r: glam::Vec3)
        ensures
            r == sub_of(self.max, self.min),
    {
        vec3_sub(self.max, self.min)
    }

    /// The centre of the extent, halfway between `min` and `max`.
    pub fn center(&self) -> (r: glam::Vec3)
        ensures
            r == midpoint_of(self.min, self.max),
    {
        vec3_midpoint(self.min, self.max)
    }
}

/// The first `k` triples of `s` with each triple `(a, b, c)` re-emitted as
/// `(c, b, a)`: the winding flip applied to every cap triangulation.
pub open spec fn flip_triples(s: Seq<u32>, k: int) -> Seq<u32>
    decreases k,
{
    if k <= 0 {
        Seq::empty()
    } else {
        flip_triples(s, k - 1)
            + seq![s[3 * (k - 1) + 2], s[3 * (k - 1) + 1], s[3 * (k - 1)]]
    }
}

/// Shape of `flip_triples`: it keeps the length and reverses each triple in
/// place, so position `i` holds the input index from the mirrored slot of the
/// same triple.
pub proof fn lemma_flip_triples_shape(s: Seq<u32>, k: int)
    requires
        0 <= k,
        3 * k <= s.len(),
    ensures
        flip_triples(s, k).len() == 3 * k,
        forall|i: int|
            0 <= i < 3 * k ==> #[trigger] flip_triples(s, k)[i] == s[3 * (i / 3) + (2 - i % 3)],
    decreases k,
{
    if k > 0 {
        lemma_flip_triples_shape(s, k - 1);
        let prev = flip_triples(s, k - 1);
        let whole = flip_triples(s, k);
        assert forall|i: int|
            0 <= i < 3 * k implies #[trigger] whole[i] == s[3 * (i / 3) + (2 - i % 3)] by {
            if i < 3 * (k - 1) {
                assert(whole[i] == prev[i]);
            } else {
                let j = i - 3 * (k - 1);
                assert(i / 3 == k - 1 && i % 3 == j) by (nonlinear_arith)
                    requires
                        3 * (k - 1) <= i < 3 * k,
                        j == i - 3 * (k - 1),
                ;
                assert(whole[i] == seq![s[3 * (k - 1) + 2], s[3 * (k - 1) + 1], s[3 * (k - 1)]][j]);
            }
        }
    }
}

/// Law: the winding flip maps every triple onto the same three indices, so
/// any bound that holds of the input indices holds of the flipped ones.
pub proof fn lemma_flip_triples_bound(s: Seq<u32>, k: int, bound: u32)
    requires
        0 <= k,
        3 * k <= s.len(),
        forall|i: int| 0 <= i < s.len() ==> s[i] < bound,
    ensures
        forall|i: int| 0 <= i < 3 * k ==> flip_triples(s, k)[i] < bound,
{
    lemma_flip_triples_shape(s, k);
    assert forall|i: int| 0 <= i < 3 * k implies flip_triples(s, k)[i] < bound by {
        let t = i / 3;
        let j = i % 3;
        assert(0 <= j < 3 && 0 <= t < k && 0 <= 3 * t + (2 - j) < 3 * k) by (nonlinear_arith)
            requires
                0 <= i < 3 * k,
                t == i / 3,
                j == i % 3,
        ;
        assert(flip_triples(s, k)[i] == s[3 * t + (2 - j)]);
    }
}

/// Re-emits each consecutive index triple `(a, b, c)` as `(c, b, a)`,
/// flipping the winding of every triangle while keeping the triangle order.
pub fn reverse_winding(v: &Vec<u32>) -> (r: Vec<u32>)
    requires
        v@.len() % 3 == 0,
    ensures
        r@ == flip_triples(v@, v@.len() as int / 3),
{
    let triples: usize = v.len() / 3;
    proof {
        vstd::arithmetic::div_mod::lemma_fundamental_div_mod(v@.len() as int, 3);
        assert(3 * (triples as int) == v@.len());
    }
    let mut r: Vec<u32> = Vec::with_capacity(v.len());
    let mut t: usize = 0;
    while t < triples
        invariant
            3 * (triples as int) == v@.len(),
            v@.len() <= usize::MAX,
            t <= triples,
            r@ == flip_triples(v@, t as int),
        decreases triples - t,
    {
        r.push(v[3 * t + 2]);
        r.push(v[3 * t + 1]);
        r.push(v[3 * t]);
        t = t + 1;
        proof {
            assert(r@ =~= flip_triples(v@, t as int));
        }
    }
    r
}

/// Re-emits a whole index list back to front: the transform that flips the
/// winding of a cap so that it faces the other way.
pub fn reverse_emission(v: &Vec<u32>) -> (r: Vec<u32>)
    ensures
        r@ == v@.reverse(),
{
    let mut r: Vec<u32> = Vec::with_capacity(v.len());
    let mut i: usize = 0;
    while i < v.len()
        invariant
            i <= v@.len(),
            r@.len() == i,
            forall|j: int| 0 <= j < i ==> r@[j] == v@[v@.len() - 1 - j],
        decreases v@.len() - i,
    {
        r.push(v[v.len() - 1 - i]);
        i = i + 1;
    }
    proof {
        assert(r@ =~= v@.reverse());
    }
    r
}

/// Translates every index by `k`: the transform that maps a cap triangulation
/// from the bottom vertex ring onto the top ring.
pub fn offset_indices(v: &Vec<u32>, k: u32) -> (r: Vec<u32>)
    requires
        forall|i: int| 0 <= i < v@.len() ==> v@[i] + k <= u32::MAX,
    ensures
        r@.len() == v@.len(),
        forall|i: int| 0 <= i < v@.len() ==> r@[i] == v@[i] + k,
{
    let mut r: Vec<u32> = Vec::with_capacity(v.len());
    let mut i: usize = 0;
    while i < v.len()
        invariant
            i <= v@.len(),
            r@.len() == i,
            forall|j: int| 0 <= j < v@.len() ==> v@[j] + k <= u32::MAX,
            forall|j: int| 0 <= j < i ==> r@[j] == v@[j] + k,
        decreases v@.len() - i,
    {
        r.push(v[i] + k);
        i = i + 1;
    }
    r
}

} // verus!
