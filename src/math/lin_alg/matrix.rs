use crate::math::lin_alg::spatial_vector::SpatialVector;
use crate::math::scalar::Scalar;
use vstd::prelude::*;

verus! {

/// Why vectors could not be assembled into a matrix.
#[derive(Debug, Clone, Copy, PartialEq, Eq)]
pub enum ShapeError {
    /// The vectors' number or dimensions do not fit the kind of matrix asked for.
    InconsistentShape,
}

/// A matrix assembled from vectors of type `V`. Only the interface is given
/// here: how a matrix is stored and multiplied is up to the implementation.
pub trait Matrix<S: Scalar, V: SpatialVector<S>>: Sized {
    /// Builds the matrix whose columns are `vecs`.
    fn construct_from_columns(vecs: &Vec<V>) -> Result<Self, ShapeError>;

    /// Builds the matrix whose rows are `vecs`.
    fn construct_from_rows(vecs: &Vec<V>) -> Result<Self, ShapeError>;

    /// The dimensions `(rows, columns)`.
    fn size(&self) -> (usize, usize);
}

} // verus!
