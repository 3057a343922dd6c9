pub use crate::math::lin_alg::spatial_vector::SpatialVector;
pub use crate::math::scalar::Scalar;
pub use crate::spatial::direction::Direction;
pub use crate::spatial::position::Position;
use vstd::prelude::*;

verus! {

/// A reference frame: maps positions and directions given in world
/// coordinates into the frame's local coordinates. Only the interface is given
/// here.
pub trait Affinity<S: Scalar, V: SpatialVector<S>>: Sized {
    /// The identity frame.
    fn new() -> Self;

    /// The position `pos` in local coordinates.
    fn get_as_local_position(&self, pos: Position<S, V>) -> Position<S, V>;

    /// The direction `dir` in local coordinates.
    fn get_as_local_direction(&self, dir: Direction<S, V>) -> Direction<S, V>;

    /// The frame that maps first by `rhs`, then by this one.
    fn compose(&self, rhs: &Self) -> Self;
}

} // verus!
