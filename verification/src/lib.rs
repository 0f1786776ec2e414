//! Coordinate machinery for a hexagonal discrete global grid system.
//!
//! Two independent pieces, composed only through shared value types:
//!
//! - the cube-coordinate engine: a three-axis, zero-sum integer coordinate
//!   system convenient for linear interpolation, with the rounding rule that
//!   repairs the zero-sum invariant after a continuous translation, and the
//!   bidirectional mapping to the grid's canonical lattice coordinate;
//! - the point layer: validation of a raw two-dimensional point given in
//!   radians, and its projection interface onto a single grid cell at a
//!   requested resolution.

pub mod cube;
pub mod ijk;
pub mod point;
