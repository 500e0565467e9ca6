//! Per-face vertex access for the external tangent generation step.
//!
//! When a mesh arrives without a tangent channel, tangents are synthesized
//! outside the core by a tangent-space generator that walks the geometry
//! face by face. This type holds the interleaved vertices and the index
//! array and answers the generator's queries: how many faces there are and
//! which position, normal and texture coordinate belong to a face's corner;
//! a computed tangent is written back into the matching vertex.

use vstd::prelude::*;

use crate::common::VertexAttributes;
use crate::mat4::{Vec2, Vec3};

verus! {

/// The geometry handed to the tangent generator.
pub struct TangentGenerator {
    pub vertices: Vec<VertexAttributes>,
    pub indices: Vec<u32>,
}

impl TangentGenerator {
    /// Every index points into the vertex array.
    pub open spec fn wf(self) -> bool {
        forall|i: int|
            0 <= i < self.indices@.len() ==> (#[trigger] self.indices@[i]) < self.vertices@.len()
    }

    /// The vertex index of corner `vert` of face `face`.
    pub open spec fn spec_corner_index(self, face: int, vert: int) -> int {
        self.indices@[3 * face + vert] as int
    }

    /// One face for every three indices; a trailing partial triple is not
    /// a face.
    pub fn num_faces(&self) -> (n: usize)
        ensures
            n == self.indices@.len() / 3,
    {
        self.indices.len() / 3
    }

    /// Every face is a triangle.
    pub fn num_vertices_of_face(&self, face: usize) -> (n: usize)
        ensures
            n == 3,
    {
        3
    }

    pub fn position(&self, face: usize, vert: usize) -> (p: Vec3)
        requires
            self.wf(),
            vert < 3,
            3 * face + vert < self.indices@.len(),
        ensures
            p == self.vertices@[self.spec_corner_index(face as int, vert as int)].position,
    {
        let count = self.indices.len();
        assert(3 * face + vert < count);
        let index = self.indices[3 * face + vert] as usize;
        self.vertices[index].position
    }

    pub fn normal(&self, face: usize, vert: usize) -> (nv: Vec3)
        requires
            self.wf(),
            vert < 3,
            3 * face + vert < self.indices@.len(),
        ensures
            nv == self.vertices@[self.spec_corner_index(face as int, vert as int)].normal,
    {
        let count = self.indices.len();
        assert(3 * face + vert < count);
        let index = self.indices[3 * face + vert] as usize;
        self.vertices[index].normal
    }

    pub fn tex_coord(&self, face: usize, vert: usize) -> (uv: Vec2)
        requires
            self.wf(),
            vert < 3,
            3 * face + vert < self.indices@.len(),
        ensures
            uv == self.vertices@[self.spec_corner_index(face as int, vert as int)].uv,
    {
        let count = self.indices.len();
        assert(3 * face + vert < count);
        let index = self.indices[3 * face + vert] as usize;
        self.vertices[index].uv
    }

    /// Store a computed tangent (given as bit patterns, the fourth
    /// handedness component dropped) into the face corner's vertex.
    pub fn set_tangent_encoded(&mut self, tangent: Vec3, face: usize, vert: usize)
        requires
            old(self).wf(),
            vert < 3,
            3 * face + vert < old(self).indices@.len(),
        ensures
            final(self).wf(),
            final(self).indices == old(self).indices,
            final(self).vertices@.len() == old(self).vertices@.len(),
            final(self).vertices@[old(self).spec_corner_index(face as int, vert as int)].tangent
                == tangent,
            forall|k: int|
                0 <= k < old(self).vertices@.len() && k != old(self).spec_corner_index(
                    face as int,
                    vert as int,
                ) ==> final(self).vertices@[k] == old(self).vertices@[k],
    {
        let count = self.indices.len();
        assert(3 * face + vert < count);
        let index = self.indices[3 * face + vert] as usize;
        let v = self.vertices[index];
        self.vertices.set(
            index,
            VertexAttributes { position: v.position, normal: v.normal, uv: v.uv, tangent },
        );
    }
}

} // verus!
