//! Triangle-mesh construction for 2-D polygon boundaries: flat polygon caps
//! and vertically extruded prisms. The crate's job ends at producing vertex
//! attribute buffers (positions, normals, UVs) and a triangle-list index
//! buffer; uploading or rendering them is the caller's concern.
//!
//! Coordinates are `glam` vectors and stay opaque to the verifier; what is
//! proved is the integer structure of every built mesh: buffer sizes, index
//! bounds, the exact index sequences of caps and side walls, and the winding
//! transforms that relate them. Triangulation uses a deterministic fan
//! strategy in O(n), so a build is a pure function of its input.

use vstd::prelude::*;

pub mod geom;
pub mod polygon;
pub mod prism;
pub mod util;

pub use polygon::Polygon;
pub use prism::Prism;
pub use util::{Extent, FlatTrapezeIndices, InvalidInput};

verus! {

/// Accumulator for one mesh: three parallel per-vertex buffers and a triangle
/// index list. A well-formed instance keeps the three vertex buffers the same
/// length, its index count a multiple of three, and every index in range.
pub struct MeshData {
    pub positions: Vec<glam::Vec3>,
    pub normals: Vec<glam::Vec3>,
    pub uvs: Vec<glam::Vec2>,
    pub indices: Vec<u32>,
}

impl MeshData {
    /// The structural invariant every finished mesh satisfies.
    pub open spec fn wf(self) -> bool {
        &&& self.normals@.len() == self.positions@.len()
        &&& self.uvs@.len() == self.positions@.len()
        &&& self.indices@.len() % 3 == 0
        &&& forall|i: int|
            0 <= i < self.indices@.len() ==> self.indices@[i] < self.positions@.len()
    }

    /// An empty mesh, with room reserved for the expected vertex and index
    /// counts.
    pub fn new(vertex_count: usize, index_count: usize) -> (m: MeshData)
        ensures
            m.positions@.len() == 0,
            m.normals@.len() == 0,
            m.uvs@.len() == 0,
            m.indices@.len() == 0,
    {
        MeshData {
            positions: Vec::with_capacity(vertex_count),
            normals: Vec::with_capacity(vertex_count),
            uvs: Vec::with_capacity(vertex_count),
            indices: Vec::with_capacity(index_count),
        }
    }
}

} // verus!
