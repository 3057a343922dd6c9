pub use crate::math::lin_alg::spatial_vector::{NormalizeError, SpatialVector};
pub use crate::math::scalar::Scalar;
use crate::math::scalar::lemma_add_swap_middle;
use vstd::prelude::*;

verus! {

/// A Cartesian vector of three components. Equality is exact, component by
/// component.
#[derive(Debug, Clone, Copy, PartialEq)]
pub struct Vector3D<S: Scalar> {
    pub x: S,
    pub y: S,
    pub z: S,
}

impl<S: Scalar> Vector3D<S> {
    #[allow(non_snake_case)]
    pub fn new(X: S, Y: S, Z: S) -> (r: Self)
        ensures
            r == (Vector3D { x: X, y: Y, z: Z }),
    {
        Vector3D { x: X, y: Y, z: Z }
    }
}

impl<S: Scalar> SpatialVector<S> for Vector3D<S> {
    open spec fn size_spec() -> nat {
        3
    }

    open spec fn zero_spec() -> Self {
        Vector3D { x: S::zero_spec(), y: S::zero_spec(), z: S::zero_spec() }
    }

    open spec fn add_spec(self, rhs: Self) -> Self {
        Vector3D { x: self.x.add_spec(rhs.x), y: self.y.add_spec(rhs.y), z: self.z.add_spec(rhs.z) }
    }

    open spec fn sub_spec(self, rhs: Self) -> Self {
        Vector3D { x: self.x.sub_spec(rhs.x), y: self.y.sub_spec(rhs.y), z: self.z.sub_spec(rhs.z) }
    }

    /// `x1*x2 + y1*y2 + z1*z2`, summed from the left.
    open spec fn dot_spec(self, rhs: Self) -> S {
        self.x.mul_spec(rhs.x).add_spec(self.y.mul_spec(rhs.y)).add_spec(self.z.mul_spec(rhs.z))
    }

    /// `(y1*z2 - z1*y2, z1*x2 - x1*z2, x1*y2 - y1*x2)`.
    open spec fn cross_spec(self, rhs: Self) -> Self {
        Vector3D {
            x: self.y.mul_spec(rhs.z).sub_spec(self.z.mul_spec(rhs.y)),
            y: self.z.mul_spec(rhs.x).sub_spec(self.x.mul_spec(rhs.z)),
            z: self.x.mul_spec(rhs.y).sub_spec(self.y.mul_spec(rhs.x)),
        }
    }

    open spec fn scale_spec(self, s: S) -> Self {
        Vector3D { x: self.x.mul_spec(s), y: self.y.mul_spec(s), z: self.z.mul_spec(s) }
    }

    fn size() -> (r: usize) {
        3
    }

    fn zero() -> (r: Self) {
        Vector3D { x: S::zero(), y: S::zero(), z: S::zero() }
    }

    fn add(&self, rhs: &Self) -> (r: Self) {
        Vector3D { x: self.x.add(rhs.x), y: self.y.add(rhs.y), z: self.z.add(rhs.z) }
    }

    fn sub(&self, rhs: &Self) -> (r: Self) {
        Vector3D { x: self.x.sub(rhs.x), y: self.y.sub(rhs.y), z: self.z.sub(rhs.z) }
    }

    fn dot(&self, rhs: &Self) -> (r: S) {
        self.x.mul(rhs.x).add(self.y.mul(rhs.y)).add(self.z.mul(rhs.z))
    }

    fn cross(&self, rhs: &Self) -> (r: Self) {
        Vector3D {
            x: self.y.mul(rhs.z).sub(self.z.mul(rhs.y)),
            y: self.z.mul(rhs.x).sub(self.x.mul(rhs.z)),
            z: self.x.mul(rhs.y).sub(self.y.mul(rhs.x)),
        }
    }

    fn mul_scalar(&self, s: S) -> (r: Self) {
        Vector3D { x: self.x.mul(s), y: self.y.mul(s), z: self.z.mul(s) }
    }

    fn scale(&mut self, s: S) {
        self.x = self.x.mul(s);
        self.y = self.y.mul(s);
        self.z = self.z.mul(s);
    }

    fn length(&self) -> (r: S) {
        self.x.mul(self.x).add(self.y.mul(self.y)).add(self.z.mul(self.z)).sqrt()
    }

    fn normalize(&mut self) -> (r: Result<(), NormalizeError>) {
        let len = self.length();
        if len.equals(S::zero()) {
            Err(NormalizeError::ZeroLengthVector)
        } else {
            self.scale(len.inv());
            Ok(())
        }
    }

    proof fn lemma_additive_identity(v: Self) {
        S::lemma_add_zero(v.x);
        S::lemma_add_zero(v.y);
        S::lemma_add_zero(v.z);
        S::lemma_sub_self(v.x);
        S::lemma_sub_self(v.y);
        S::lemma_sub_self(v.z);
    }

    proof fn lemma_dot_bilinear(a: Self, b: Self, c: Self) {
        S::lemma_mul_commutative(a.x, b.x);
        S::lemma_mul_commutative(a.y, b.y);
        S::lemma_mul_commutative(a.z, b.z);
        S::lemma_mul_distributive(a.x, b.x, c.x);
        S::lemma_mul_distributive(a.y, b.y, c.y);
        S::lemma_mul_distributive(a.z, b.z, c.z);
        let (p1, p2, p3) = (a.x.mul_spec(c.x), a.y.mul_spec(c.y), a.z.mul_spec(c.z));
        let (q1, q2, q3) = (b.x.mul_spec(c.x), b.y.mul_spec(c.y), b.z.mul_spec(c.z));
        lemma_add_swap_middle(p1, q1, p2, q2);
        lemma_add_swap_middle(p1.add_spec(p2), q1.add_spec(q2), p3, q3);
    }

    proof fn lemma_cross_antisymmetric(a: Self, b: Self) {
        S::lemma_mul_commutative(a.y, b.z);
        S::lemma_mul_commutative(a.z, b.y);
        S::lemma_mul_commutative(a.z, b.x);
        S::lemma_mul_commutative(a.x, b.z);
        S::lemma_mul_commutative(a.x, b.y);
        S::lemma_mul_commutative(a.y, b.x);
        S::lemma_sub_antisymmetric(a.y.mul_spec(b.z), a.z.mul_spec(b.y));
        S::lemma_sub_antisymmetric(a.z.mul_spec(b.x), a.x.mul_spec(b.z));
        S::lemma_sub_antisymmetric(a.x.mul_spec(b.y), a.y.mul_spec(b.x));
        S::lemma_mul_commutative(a.y, a.z);
        S::lemma_mul_commutative(a.z, a.x);
        S::lemma_mul_commutative(a.x, a.y);
        S::lemma_sub_self(a.y.mul_spec(a.z));
        S::lemma_sub_self(a.z.mul_spec(a.x));
        S::lemma_sub_self(a.x.mul_spec(a.y));
    }

    proof fn lemma_zero_length() {
        let z = S::zero_spec();
        S::lemma_mul_zero(z);
        S::lemma_add_zero(z);
        S::lemma_sqrt_zero();
        S::lemma_zero_equals_zero();
    }

    proof fn lemma_add_sub_cancel(a: Self, b: Self) {
        S::lemma_add_sub_cancel(a.x, b.x);
        S::lemma_add_sub_cancel(a.y, b.y);
        S::lemma_add_sub_cancel(a.z, b.z);
    }
}

} // verus!
