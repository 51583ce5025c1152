//! Icosphere mesh generation: a triangulated sphere approximation built by
//! recursively subdividing a regular icosahedron.
//!
//! The base icosahedron has its 12 vertices at the coordinate permutations of
//! (0, +/-1, +/-tau) with tau the golden ratio. Every coordinate of every
//! base vertex is therefore an element of the ring of integers extended by
//! tau, which this crate models exactly as pairs of integers (see [`golden`]).
//! Face discovery and winding orientation are decided in that exact
//! arithmetic; no rounding is involved anywhere in the mesh logic.
//!
//! Vertices created by subdivision are midpoints of existing vertices,
//! re-projected onto the sphere. Their positions are irrational, so the mesh
//! records each of them symbolically as the pair of parent vertices it was
//! derived from; a renderer evaluates the numeric positions in one forward
//! pass (parents always precede children).

pub mod base;
pub mod cache;
pub mod golden;
pub mod mesh;
pub mod vertex;

pub use crate::base::sphere_sq_radius;
pub use crate::mesh::icosphere;
pub use crate::mesh::IcosphereError;
pub use crate::mesh::MAX_SUBDIVISION_LEVEL;
pub use crate::golden::Golden;
pub use crate::golden::Point;
pub use crate::vertex::Face;
pub use crate::vertex::Vertex;
