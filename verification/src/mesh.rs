//! The vertices that a shape stores on the backend.

use vstd::prelude::*;
use crate::backend::{Shape, FLOAT_SIZE};
use crate::geometry;
use crate::light::directional;
use crate::vector::Vector4;

verus! {

/// Most vertices that a mesh may have.
pub const MAX_VERTICES: usize = 0x0100_0000;

/// The vertices of a shape, each kind with the record of its own.
#[derive(Debug, PartialEq, Eq)]
pub enum Mesh {
    /// The facets of a star: position, normal direction and colour.
    Star(Vec<geometry::Vertex>),
    /// The corners of a ring: position by angle, and colour.
    Ring(Vec<directional::Vertex>),
    /// The corners of a triangle: position with its scale.
    Triangle(Vec<Vector4>),
}

impl Mesh {
    /// The shape that the mesh belongs to.
    pub open spec fn shape(self) -> Shape {
        match self {
            Mesh::Star(_) => Shape::Star,
            Mesh::Ring(_) => Shape::LightGizmo,
            Mesh::Triangle(_) => Shape::Triangle,
        }
    }

    /// How many vertices the mesh has.
    pub open spec fn len(self) -> nat {
        match self {
            Mesh::Star(vertices) => vertices@.len(),
            Mesh::Ring(vertices) => vertices@.len(),
            Mesh::Triangle(vertices) => vertices@.len(),
        }
    }

    /// How many components a vertex has on the backend: three for a
    /// position or a normal, four for a colour or a position with its scale.
    pub open spec fn components(self) -> nat {
        match self {
            Mesh::Star(_) => 10,
            Mesh::Ring(_) => 7,
            Mesh::Triangle(_) => 4,
        }
    }

    /// How many bytes the mesh fills on the backend.
    pub open spec fn byte_size(self) -> nat {
        self.len() * self.components() * FLOAT_SIZE as nat
    }

    /// The shape that the mesh belongs to.
    pub fn kind(&self) -> (shape: Shape)
        ensures
            shape == self.shape(),
    {
        match self {
            Mesh::Star(_) => Shape::Star,
            Mesh::Ring(_) => Shape::LightGizmo,
            Mesh::Triangle(_) => Shape::Triangle,
        }
    }

    /// How many vertices the mesh has.
    pub fn vertex_count(&self) -> (count: usize)
        ensures
            count == self.len(),
    {
        match self {
            Mesh::Star(vertices) => vertices.len(),
            Mesh::Ring(vertices) => vertices.len(),
            Mesh::Triangle(vertices) => vertices.len(),
        }
    }

    /// How many components a vertex has on the backend.
    pub fn vertex_components(&self) -> (count: usize)
        ensures
            count == self.components(),
    {
        match self {
            Mesh::Star(_) => 10,
            Mesh::Ring(_) => 7,
            Mesh::Triangle(_) => 4,
        }
    }

    /// How many bytes the mesh fills on the backend.
    pub fn byte_count(&self) -> (bytes: usize)
        requires
            self.len() <= MAX_VERTICES,
        ensures
            bytes == self.byte_size(),
    {
        let count = self.vertex_count();
        let components = self.vertex_components();
        assert(count * components <= MAX_VERTICES * 10) by (nonlinear_arith)
            requires
                count <= MAX_VERTICES,
                components <= 10,
        ;
        count * components * FLOAT_SIZE
    }
}

} // verus!
