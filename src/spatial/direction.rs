pub use crate::math::lin_alg::spatial_vector::{NormalizeError, SpatialVector};
pub use crate::math::scalar::Scalar;
use crate::spatial::position::Position;
use std::marker::PhantomData;
use vstd::prelude::*;

verus! {

/// A free displacement: a vector that is not attached to a place. The scalar
/// type is carried at compile time only.
#[derive(Debug, Copy, PartialEq)]
pub struct Direction<S: Scalar, V: SpatialVector<S>> {
    pub v: V,
    /// Carries the scalar type; holds no data.
    pub s: PhantomData<S>,
}

impl<S: Scalar, V: SpatialVector<S> + Copy> Clone for Direction<S, V> {
    fn clone(&self) -> (r: Self)
        ensures
            r == *self,
    {
        *self
    }
}

impl<S: Scalar, V: SpatialVector<S>> Direction<S, V> {
    /// The direction that the vector `v` stands for.
    pub open spec fn from_vector(v: V) -> Self {
        Direction { v: v, s: PhantomData }
    }

    pub fn new(vec: V) -> (r: Self)
        ensures
            r == Self::from_vector(vec),
    {
        Direction { v: vec, s: PhantomData }
    }

    /// Moving the position `p` by this direction.
    pub fn add_position(&self, p: &Position<S, V>) -> (r: Position<S, V>)
        ensures
            r == Position::<S, V>::from_vector(self.v.add_spec(p.v)),
    {
        Position::new(self.v.add(&p.v))
    }
}

/// Every operation works on the wrapped vector and wraps the result as a
/// direction again; the reported dimension counts one more coordinate, the
/// homogeneous one of affine transforms.
impl<S: Scalar, V: SpatialVector<S>> SpatialVector<S> for Direction<S, V> {
    open spec fn size_spec() -> nat {
        V::size_spec() + 1
    }

    open spec fn zero_spec() -> Self {
        Self::from_vector(V::zero_spec())
    }

    open spec fn add_spec(self, rhs: Self) -> Self {
        Self::from_vector(self.v.add_spec(rhs.v))
    }

    open spec fn sub_spec(self, rhs: Self) -> Self {
        Self::from_vector(self.v.sub_spec(rhs.v))
    }

    open spec fn dot_spec(self, rhs: Self) -> S {
        self.v.dot_spec(rhs.v)
    }

    open spec fn cross_spec(self, rhs: Self) -> Self {
        Self::from_vector(self.v.cross_spec(rhs.v))
    }

    open spec fn scale_spec(self, s: S) -> Self {
        Self::from_vector(self.v.scale_spec(s))
    }

    fn size() -> (r: usize) {
        V::size() + 1
    }

    fn zero() -> (r: Self) {
        Direction::new(V::zero())
    }

    fn add(&self, rhs: &Self) -> (r: Self) {
        Direction::new(self.v.add(&rhs.v))
    }

    fn sub(&self, rhs: &Self) -> (r: Self) {
        Direction::new(self.v.sub(&rhs.v))
    }

    fn dot(&self, rhs: &Self) -> (r: S) {
        self.v.dot(&rhs.v)
    }

    fn cross(&self, rhs: &Self) -> (r: Self) {
        Direction::new(self.v.cross(&rhs.v))
    }

    fn mul_scalar(&self, s: S) -> (r: Self) {
        Direction::new(self.v.mul_scalar(s))
    }

    fn scale(&mut self, s: S) {
        self.v.scale(s);
    }

    fn length(&self) -> (r: S) {
        self.v.length()
    }

    fn normalize(&mut self) -> (r: Result<(), NormalizeError>) {
        self.v.normalize()
    }

    proof fn lemma_additive_identity(d: Self) {
        V::lemma_additive_identity(d.v);
    }

    proof fn lemma_dot_bilinear(a: Self, b: Self, c: Self) {
        V::lemma_dot_bilinear(a.v, b.v, c.v);
    }

    proof fn lemma_cross_antisymmetric(a: Self, b: Self) {
        V::lemma_cross_antisymmetric(a.v, b.v);
    }

    proof fn lemma_zero_length() {
        V::lemma_zero_length();
    }

    proof fn lemma_add_sub_cancel(a: Self, b: Self) {
        V::lemma_add_sub_cancel(a.v, b.v);
    }
}

} // verus!
