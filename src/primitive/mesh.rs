//! Meshes: started without vertices, then given triangles, which are kept in
//! the session's scratch mesh.
use crate::primitive::Span;
use crate::properties::{default_orientation, default_position, Orientation, Position};
use vstd::prelude::*;

verus! {

/// A mesh whose vertices are yet to be given.
#[derive(Clone, Copy, Debug, PartialEq, Eq, Structural)]
pub struct MeshVertexless {
    pub position: Position,
    pub orientation: Orientation,
}

/// A mesh with its vertices and indices: the ranges `vertices` and `indices`
/// of the scratch mesh.
#[derive(Clone, Copy, Debug, PartialEq, Eq, Structural)]
pub struct MeshPrimitive {
    pub position: Position,
    pub orientation: Orientation,
    pub vertices: Span,
    pub indices: Span,
}

impl MeshVertexless {
    pub fn new() -> (r: MeshVertexless)
        ensures
            r == (MeshVertexless { position: default_position(), orientation: default_orientation() }),
    {
        MeshVertexless { position: Position::new(), orientation: Orientation::new() }
    }
}

} // verus!
