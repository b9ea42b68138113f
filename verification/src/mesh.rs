//! The indexed triangle mesh that meshing a distance field produces:
//! parallel per-vertex arrays and a flat triple-per-triangle index list.
//! Components are single-precision bit patterns.

use vstd::prelude::*;

verus! {

/// An indexed triangle mesh. The per-vertex arrays run in parallel: one
/// position, one unit normal and one linear-space color per vertex; every
/// three indices form one triangle.
#[derive(Clone, Debug)]
pub struct TriangleMesh {
    pub indices: Vec<u32>,
    pub positions: Vec<[u32; 3]>,
    pub normals: Vec<[u32; 3]>,
    pub colors: Vec<[u32; 3]>,
}

/// The shape invariant of a mesh: the vertex arrays agree in length, the
/// index list is whole triangles, and every index names a vertex.
pub open spec fn mesh_well_formed(mesh: TriangleMesh) -> bool {
    &&& mesh.positions@.len() == mesh.normals@.len()
    &&& mesh.positions@.len() == mesh.colors@.len()
    &&& mesh.indices@.len() % 3 == 0
    &&& forall|i: int|
        0 <= i < mesh.indices@.len() ==> (#[trigger] mesh.indices@[i]) < mesh.positions@.len()
}

impl Default for TriangleMesh {
    /// The empty mesh, trivially well formed.
    fn default() -> (r: TriangleMesh)
        ensures
            r.indices@.len() == 0,
            r.positions@.len() == 0,
            r.normals@.len() == 0,
            r.colors@.len() == 0,
            mesh_well_formed(r),
    {
        TriangleMesh {
            indices: Vec::new(),
            positions: Vec::new(),
            normals: Vec::new(),
            colors: Vec::new(),
        }
    }
}

impl TriangleMesh {
    /// Decides the shape invariant.
    pub fn is_well_formed(&self) -> (r: bool)
        ensures
            r == mesh_well_formed(*self),
    {
        if self.positions.len() != self.normals.len() {
            return false;
        }
        if self.positions.len() != self.colors.len() {
            return false;
        }
        if self.indices.len() % 3 != 0 {
            return false;
        }
        let mut i: usize = 0;
        while i < self.indices.len()
            invariant
                i <= self.indices@.len(),
                forall|j: int|
                    0 <= j < i ==> (#[trigger] self.indices@[j]) < self.positions@.len(),
            decreases self.indices@.len() - i,
        {
            if self.indices[i] as usize >= self.positions.len() {
                return false;
            }
            i = i + 1;
        }
        true
    }
}

} // verus!
