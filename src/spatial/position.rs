pub use crate::math::lin_alg::spatial_vector::{NormalizeError, SpatialVector};
pub use crate::math::scalar::Scalar;
pub use crate::spatial::direction::Direction;
use std::marker::PhantomData;
use vstd::prelude::*;

verus! {

/// An absolute point in space, given by its vector from the origin. The scalar
/// type is carried at compile time only.
#[derive(Debug, Copy, PartialEq)]
pub struct Position<S: Scalar, V: SpatialVector<S>> {
    pub v: V,
    /// Carries the scalar type; holds no data.
    pub s: PhantomData<S>,
}

impl<S: Scalar, V: SpatialVector<S> + Copy> Clone for Position<S, V> {
    fn clone(&self) -> (r: Self)
        ensures
            r == *self,
    {
        *self
    }
}

impl<S: Scalar, V: SpatialVector<S>> Position<S, V> {
    /// The position that the vector `v` stands for.
    pub open spec fn from_vector(v: V) -> Self {
        Position { v: v, s: PhantomData }
    }

    pub open spec fn add_direction_spec(self, d: Direction<S, V>) -> Self {
        Self::from_vector(self.v.add_spec(d.v))
    }

    pub open spec fn sub_direction_spec(self, d: Direction<S, V>) -> Self {
        Self::from_vector(self.v.sub_spec(d.v))
    }

    pub open spec fn sub_position_spec(self, rhs: Self) -> Direction<S, V> {
        Direction::<S, V>::from_vector(self.v.sub_spec(rhs.v))
    }

    pub fn new(vec: V) -> (r: Self)
        ensures
            r == Self::from_vector(vec),
    {
        Position { v: vec, s: PhantomData }
    }

    /// The position reached by moving this one by `d`.
    pub fn add_direction(&self, d: &Direction<S, V>) -> (r: Self)
        ensures
            r == self.add_direction_spec(*d),
    {
        Position::new(self.v.add(&d.v))
    }

    /// The position reached by moving this one against `d`.
    pub fn sub_direction(&self, d: &Direction<S, V>) -> (r: Self)
        ensures
            r == self.sub_direction_spec(*d),
    {
        Position::new(self.v.sub(&d.v))
    }

    /// The displacement that leads from `rhs` to this position.
    pub fn sub_position(&self, rhs: &Self) -> (r: Direction<S, V>)
        ensures
            r == self.sub_position_spec(*rhs),
    {
        Direction::new(self.v.sub(&rhs.v))
    }
}

/// Moving a position by a direction and back again returns to it: for every
/// position `p` and direction `d`, `(p + d) - d == p`.
pub proof fn lemma_affine_round_trip<S: Scalar, V: SpatialVector<S>>(
    p: Position<S, V>,
    d: Direction<S, V>,
)
    ensures
        p.add_direction_spec(d).sub_direction_spec(d) == p,
{
    V::lemma_add_sub_cancel(p.v, d.v);
}

/// Every operation works on the wrapped vector and wraps the result as a
/// position again; the reported dimension counts one more coordinate, the
/// homogeneous one of affine transforms. (`sub` here is the vector difference;
/// the displacement between two positions, a direction, is `sub_position`.)
impl<S: Scalar, V: SpatialVector<S>> SpatialVector<S> for Position<S, V> {
    open spec fn size_spec() -> nat {
        V::size_spec() + 1
    }

    open spec fn zero_spec() -> Self {
        Self::from_vector(V::zero_spec())
    }

    open spec fn add_spec(self, rhs: Self) -> Self {
        Self::from_vector(self.v.add_spec(rhs.v))
    }

    open spec fn sub_spec(self, rhs: Self) -> Self {
        Self::from_vector(self.v.sub_spec(rhs.v))
    }

    open spec fn dot_spec(self, rhs: Self) -> S {
        self.v.dot_spec(rhs.v)
    }

    open spec fn cross_spec(self, rhs: Self) -> Self {
        Self::from_vector(self.v.cross_spec(rhs.v))
    }

    open spec fn scale_spec(self, s: S) -> Self {
        Self::from_vector(self.v.scale_spec(s))
    }

    fn size() -> (r: usize) {
        V::size() + 1
    }

    fn zero() -> (r: Self) {
        Position::new(V::zero())
    }

    fn add(&self, rhs: &Self) -> (r: Self) {
        Position::new(self.v.add(&rhs.v))
    }

    fn sub(&self, rhs: &Self) -> (r: Self) {
        Position::new(self.v.sub(&rhs.v))
    }

    fn dot(&self, rhs: &Self) -> (r: S) {
        self.v.dot(&rhs.v)
    }

    fn cross(&self, rhs: &Self) -> (r: Self) {
        Position::new(self.v.cross(&rhs.v))
    }

    fn mul_scalar(&self, s: S) -> (r: Self) {
        Position::new(self.v.mul_scalar(s))
    }

    fn scale(&mut self, s: S) {
        self.v.scale(s);
    }

    fn length(&self) -> (r: S) {
        self.v.length()
    }

    fn normalize(&mut self) -> (r: Result<(), NormalizeError>) {
        self.v.normalize()
    }

    proof fn lemma_additive_identity(p: Self) {
        V::lemma_additive_identity(p.v);
    }

    proof fn lemma_dot_bilinear(a: Self, b: Self, c: Self) {
        V::lemma_dot_bilinear(a.v, b.v, c.v);
    }

    proof fn lemma_cross_antisymmetric(a: Self, b: Self) {
        V::lemma_cross_antisymmetric(a.v, b.v);
    }

    proof fn lemma_zero_length() {
        V::lemma_zero_length();
    }

    proof fn lemma_add_sub_cancel(a: Self, b: Self) {
        V::lemma_add_sub_cancel(a.v, b.v);
    }
}

} // verus!
