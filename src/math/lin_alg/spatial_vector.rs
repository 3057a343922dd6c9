pub use crate::math::scalar::Scalar;
use vstd::prelude::*;

verus! {

/// Why a vector could not be normalized.
#[derive(Debug, Clone, Copy, PartialEq, Eq)]
pub enum NormalizeError {
    /// The vector's length is exactly zero, so it has no direction.
    ZeroLengthVector,
}

/// A vector of a fixed dimension over the scalar type `S`.
///
/// The spec functions describe each operation; the executable methods are
/// proved to compute exactly them. Every implementation proves the laws at the
/// end of the trait, which make the vectors a module over `S`.
pub trait SpatialVector<S: Scalar>: Sized {
    /// The dimension that the type reports.
    spec fn size_spec() -> nat;

    spec fn zero_spec() -> Self;

    spec fn add_spec(self, rhs: Self) -> Self;

    spec fn sub_spec(self, rhs: Self) -> Self;

    /// The sum of the componentwise products.
    spec fn dot_spec(self, rhs: Self) -> S;

    spec fn cross_spec(self, rhs: Self) -> Self;

    /// Every component multiplied by `s`.
    spec fn scale_spec(self, s: S) -> Self;

    /// Reports the dimension.
    fn size() -> (r: usize)
        requires
            Self::size_spec() <= usize::MAX,
        ensures
            r == Self::size_spec(),
    ;

    /// The zero vector.
    fn zero() -> (r: Self)
        ensures
            r == Self::zero_spec(),
    ;

    fn add(&self, rhs: &Self) -> (r: Self)
        ensures
            r == self.add_spec(*rhs),
    ;

    fn sub(&self, rhs: &Self) -> (r: Self)
        ensures
            r == self.sub_spec(*rhs),
    ;

    /// The dot (inner) product.
    fn dot(&self, rhs: &Self) -> (r: S)
        ensures
            r == self.dot_spec(*rhs),
    ;

    /// The cross (outer) product.
    fn cross(&self, rhs: &Self) -> (r: Self)
        ensures
            r == self.cross_spec(*rhs),
    ;

    /// A copy of the vector multiplied by `s`.
    fn mul_scalar(&self, s: S) -> (r: Self)
        ensures
            r == self.scale_spec(s),
    ;

    /// Multiplies the vector by `s` in place.
    fn scale(&mut self, s: S)
        ensures
            *final(self) == (*old(self)).scale_spec(s),
    ;

    /// The Euclidean length: the square root of the vector's dot product with itself.
    fn length(&self) -> (r: S)
        ensures
            r == self.dot_spec(*self).sqrt_spec(),
    ;

    /// Scales the vector to unit length. Fails, leaving the vector as it was,
    /// exactly when its length compares equal to zero; otherwise scales it by
    /// the inverse of its length.
    fn normalize(&mut self) -> (r: Result<(), NormalizeError>)
        ensures
            ({
                let len = (*old(self)).dot_spec(*old(self)).sqrt_spec();
                if len.eq_spec(S::zero_spec()) {
                    &&& r == Err::<(), NormalizeError>(NormalizeError::ZeroLengthVector)
                    &&& *final(self) == *old(self)
                } else {
                    &&& r == Ok::<(), NormalizeError>(())
                    &&& *final(self) == (*old(self)).scale_spec(len.inv_spec())
                }
            }),
    ;

    /// The zero vector is the additive identity, and a vector minus itself is zero.
    proof fn lemma_additive_identity(v: Self)
        ensures
            v.add_spec(Self::zero_spec()) == v,
            v.sub_spec(v) == Self::zero_spec(),
    ;

    /// The dot product is symmetric, and additive in its first argument (with
    /// symmetry, in both).
    proof fn lemma_dot_bilinear(a: Self, b: Self, c: Self)
        ensures
            a.dot_spec(b) == b.dot_spec(a),
            a.add_spec(b).dot_spec(c) == a.dot_spec(c).add_spec(b.dot_spec(c)),
    ;

    /// The cross product is anticommutative, and a vector crossed with itself is zero.
    proof fn lemma_cross_antisymmetric(a: Self, b: Self)
        ensures
            a.cross_spec(b) == Self::zero_spec().sub_spec(b.cross_spec(a)),
            a.cross_spec(a) == Self::zero_spec(),
    ;

    /// The zero vector's length compares equal to zero, so normalizing it fails.
    proof fn lemma_zero_length()
        ensures
            Self::zero_spec().dot_spec(Self::zero_spec()).sqrt_spec().eq_spec(S::zero_spec()),
    ;

    /// Subtracting a vector undoes adding it.
    proof fn lemma_add_sub_cancel(a: Self, b: Self)
        ensures
            a.add_spec(b).sub_spec(b) == a,
    ;
}

} // verus!
