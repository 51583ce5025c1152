//! The vertex representation of the generated mesh.

use vstd::prelude::*;

use crate::golden::Point;

verus! {

/// One vertex of the mesh.
///
/// The twelve seed vertices of the icosahedron have exact golden-ratio
/// integer coordinates and are stored as such. Every further vertex is the
/// midpoint of two earlier vertices re-projected onto the sphere (its
/// direction is that of the midpoint, its magnitude the sphere radius); that
/// position is irrational, so the vertex records the defining pair of parent
/// indices instead. Parents always precede the vertex itself in the vertex
/// sequence, so positions can be evaluated numerically in one forward pass.
#[derive(Clone, Copy, Debug, PartialEq, Eq, Structural)]
pub enum Vertex {
    /// A seed vertex of the base icosahedron, with its exact position.
    Base(Point),
    /// The midpoint of the vertices at indices `lo` and `hi` (`lo < hi`),
    /// rescaled to the sphere radius.
    Midpoint { lo: u32, hi: u32 },
}

/// One triangular face, named by the indices of its three corners, listed
/// counter-clockwise as seen from outside the sphere.
#[derive(Clone, Copy, Debug, PartialEq, Eq, Structural)]
pub struct Face {
    pub i0: u32,
    pub i1: u32,
    pub i2: u32,
}

} // verus!
