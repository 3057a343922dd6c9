use vstd::arithmetic::div_mod::{
    lemma_add_mod_noop, lemma_mul_mod_noop_general, lemma_sub_mod_noop,
};
use vstd::prelude::*;

verus! {

/// The numeric values that vectors are made of and integrals are computed in.
///
/// Every operation is described by a spec function (`add` by `add_spec`, and so
/// on), which an implementation defines. The generic code of this crate states
/// its results exactly in terms of these functions, in the order in which it
/// performs the operations, so that a result can be reproduced step by step.
///
/// An implementation also proves the laws below: the identities of commutative
/// ring arithmetic that the vector laws are derived from.
pub trait Scalar: Sized + Copy {
    /// The additive identity.
    spec fn zero_spec() -> Self;

    /// The value that stands for one half (used for the half-weighted end points).
    spec fn half_spec() -> Self;

    /// The value that stands for the count `n`.
    spec fn from_u64_spec(n: u64) -> Self;

    spec fn add_spec(self, rhs: Self) -> Self;

    spec fn sub_spec(self, rhs: Self) -> Self;

    spec fn mul_spec(self, rhs: Self) -> Self;

    spec fn div_spec(self, rhs: Self) -> Self;

    spec fn sqrt_spec(self) -> Self;

    /// The multiplicative inverse; what it is at zero is up to the implementation.
    spec fn inv_spec(self) -> Self;

    /// Exact comparison, as the type's own `==` makes it.
    spec fn eq_spec(self, rhs: Self) -> bool;

    fn zero() -> (r: Self)
        ensures
            r == Self::zero_spec(),
    ;

    fn half() -> (r: Self)
        ensures
            r == Self::half_spec(),
    ;

    fn from_u64(n: u64) -> (r: Self)
        ensures
            r == Self::from_u64_spec(n),
    ;

    fn add(self, rhs: Self) -> (r: Self)
        ensures
            r == self.add_spec(rhs),
    ;

    fn sub(self, rhs: Self) -> (r: Self)
        ensures
            r == self.sub_spec(rhs),
    ;

    fn mul(self, rhs: Self) -> (r: Self)
        ensures
            r == self.mul_spec(rhs),
    ;

    fn div(self, rhs: Self) -> (r: Self)
        ensures
            r == self.div_spec(rhs),
    ;

    fn sqrt(self) -> (r: Self)
        ensures
            r == self.sqrt_spec(),
    ;

    fn inv(self) -> (r: Self)
        ensures
            r == self.inv_spec(),
    ;

    fn equals(self, rhs: Self) -> (r: bool)
        ensures
            r == self.eq_spec(rhs),
    ;

    /// Addition is commutative.
    proof fn lemma_add_commutative(a: Self, b: Self)
        ensures
            a.add_spec(b) == b.add_spec(a),
    ;

    /// Addition is associative.
    proof fn lemma_add_associative(a: Self, b: Self, c: Self)
        ensures
            a.add_spec(b).add_spec(c) == a.add_spec(b.add_spec(c)),
    ;

    /// Zero is the additive identity.
    proof fn lemma_add_zero(a: Self)
        ensures
            a.add_spec(Self::zero_spec()) == a,
    ;

    /// A value minus itself is zero.
    proof fn lemma_sub_self(a: Self)
        ensures
            a.sub_spec(a) == Self::zero_spec(),
    ;

    /// Swapping the operands of a subtraction negates it.
    proof fn lemma_sub_antisymmetric(a: Self, b: Self)
        ensures
            a.sub_spec(b) == Self::zero_spec().sub_spec(b.sub_spec(a)),
    ;

    /// Subtraction undoes addition.
    proof fn lemma_add_sub_cancel(a: Self, b: Self)
        ensures
            a.add_spec(b).sub_spec(b) == a,
    ;

    /// Multiplication is commutative.
    proof fn lemma_mul_commutative(a: Self, b: Self)
        ensures
            a.mul_spec(b) == b.mul_spec(a),
    ;

    /// Multiplication distributes over addition.
    proof fn lemma_mul_distributive(a: Self, b: Self, c: Self)
        ensures
            a.add_spec(b).mul_spec(c) == a.mul_spec(c).add_spec(b.mul_spec(c)),
    ;

    /// Multiplying by zero gives zero.
    proof fn lemma_mul_zero(a: Self)
        ensures
            a.mul_spec(Self::zero_spec()) == Self::zero_spec(),
    ;

    /// The square root of zero is zero.
    proof fn lemma_sqrt_zero()
        ensures
            Self::zero_spec().sqrt_spec() == Self::zero_spec(),
    ;

    /// Zero compares equal to itself.
    proof fn lemma_zero_equals_zero()
        ensures
            Self::zero_spec().eq_spec(Self::zero_spec()),
    ;
}

/// Regrouping a sum of two sums: `(a + b) + (c + d) == (a + c) + (b + d)`.
pub proof fn lemma_add_swap_middle<S: Scalar>(a: S, b: S, c: S, d: S)
    ensures
        a.add_spec(b).add_spec(c.add_spec(d)) == a.add_spec(c).add_spec(b.add_spec(d)),
{
    S::lemma_add_associative(a, b, c.add_spec(d));
    S::lemma_add_associative(b, c, d);
    S::lemma_add_commutative(b, c);
    S::lemma_add_associative(c, b, d);
    S::lemma_add_associative(a, c, b.add_spec(d));
}

/// The number of values of a 64-bit integer; `i64` arithmetic wraps modulo it.
spec fn modulus() -> int {
    0x1_0000_0000_0000_0000
}

/// The class of `x` modulo [`modulus`].
spec fn residue(x: int) -> int {
    x % modulus()
}

/// Whether `r` is the greatest integer whose square is at most `x`.
pub open spec fn is_floor_sqrt(x: int, r: int) -> bool {
    0 <= r && r * r <= x && x < (r + 1) * (r + 1)
}

/// The floor of the square root of a non-negative `x`.
pub open spec fn floor_sqrt(x: i64) -> i64 {
    choose|r: i64| is_floor_sqrt(x as int, r as int)
}

proof fn lemma_residue_injective(a: i64, b: i64)
    requires
        residue(a as int) == residue(b as int),
    ensures
        a == b,
{
}

proof fn lemma_residue_wrapping_add(a: i64, b: i64)
    ensures
        residue(a.wrapping_add(b) as int) == residue(a + b),
{
    lemma_add_mod_noop(a + b, 0, modulus());
}

proof fn lemma_residue_wrapping_sub(a: i64, b: i64)
    ensures
        residue(a.wrapping_sub(b) as int) == residue(a - b),
{
    lemma_add_mod_noop(a - b, 0, modulus());
}

proof fn lemma_residue_wrapping_mul(a: i64, b: i64)
    ensures
        residue(a.wrapping_mul(b) as int) == residue(a * b),
{
    let x = a * b;
    lemma_add_mod_noop(x, 0, modulus());
}

/// At most one integer is the floor of the square root of `x`.
proof fn lemma_floor_sqrt_unique(x: int, r: int, s: int)
    requires
        is_floor_sqrt(x, r),
        is_floor_sqrt(x, s),
    ensures
        r == s,
{
    if r < s {
        assert((r + 1) * (r + 1) <= s * s) by (nonlinear_arith)
            requires
                0 <= r,
                r + 1 <= s,
        ;
    } else if s < r {
        assert((s + 1) * (s + 1) <= r * r) by (nonlinear_arith)
            requires
                0 <= s,
                s + 1 <= r,
        ;
    }
}

/// The floor of the square root of `x` is the `r` whose square is at most `x`
/// and whose successor's square exceeds it.
pub proof fn lemma_floor_sqrt_value(x: i64, r: i64)
    requires
        is_floor_sqrt(x as int, r as int),
    ensures
        floor_sqrt(x) == r,
{
    let c = floor_sqrt(x);
    assert(is_floor_sqrt(x as int, c as int));
    lemma_floor_sqrt_unique(x as int, r as int, c as int);
}

/// Signed 64-bit integers with wrapping arithmetic, which are exactly the
/// integers modulo 2^64. Conversions truncate as `as` does (one half becomes
/// zero), `sqrt` is the floor of the square root (zero for negative values),
/// `inv` is the truncated quotient `1 / x` (zero at zero), and `div`
/// truncates, gives zero when dividing by zero and wraps on `i64::MIN / -1`.
impl Scalar for i64 {
    open spec fn zero_spec() -> i64 {
        0
    }

    open spec fn half_spec() -> i64 {
        0
    }

    open spec fn from_u64_spec(n: u64) -> i64 {
        n as i64
    }

    open spec fn add_spec(self, rhs: i64) -> i64 {
        self.wrapping_add(rhs)
    }

    open spec fn sub_spec(self, rhs: i64) -> i64 {
        self.wrapping_sub(rhs)
    }

    open spec fn mul_spec(self, rhs: i64) -> i64 {
        self.wrapping_mul(rhs)
    }

    open spec fn div_spec(self, rhs: i64) -> i64 {
        match self.checked_div(rhs) {
            Some(q) => q,
            None => if rhs == 0 {
                0
            } else {
                self
            },
        }
    }

    open spec fn sqrt_spec(self) -> i64 {
        if self < 0 {
            0
        } else {
            floor_sqrt(self)
        }
    }

    open spec fn inv_spec(self) -> i64 {
        if self == 1 {
            1
        } else if self == -1 {
            -1i64
        } else {
            0
        }
    }

    open spec fn eq_spec(self, rhs: i64) -> bool {
        self == rhs
    }

    fn zero() -> (r: i64) {
        0
    }

    fn half() -> (r: i64) {
        0
    }

    fn from_u64(n: u64) -> (r: i64) {
        n as i64
    }

    fn add(self, rhs: i64) -> (r: i64) {
        self.wrapping_add(rhs)
    }

    fn sub(self, rhs: i64) -> (r: i64) {
        self.wrapping_sub(rhs)
    }

    fn mul(self, rhs: i64) -> (r: i64) {
        self.wrapping_mul(rhs)
    }

    fn div(self, rhs: i64) -> (r: i64) {
        match self.checked_div(rhs) {
            Some(q) => q,
            None => if rhs == 0 {
                0
            } else {
                self
            },
        }
    }

    fn sqrt(self) -> (r: i64) {
        if self < 0 {
            return 0;
        }
        let x = self as i128;
        let mut lo: i128 = 0;
        let mut hi: i128 = 3037000500;
        assert(hi * hi > i64::MAX) by (nonlinear_arith)
            requires
                hi == 3037000500,
        ;
        while hi - lo > 1
            invariant
                0 <= lo < hi <= 3037000500,
                lo * lo <= x,
                x < hi * hi,
            decreases hi - lo,
        {
            let mid = lo + (hi - lo) / 2;
            assert(mid * mid <= 3037000500 * 3037000500) by (nonlinear_arith)
                requires
                    0 <= mid <= 3037000500,
            ;
            if mid * mid <= x {
                lo = mid;
            } else {
                hi = mid;
            }
        }
        let r = lo as i64;
        proof {
            lemma_floor_sqrt_value(self, r);
        }
        r
    }

    fn inv(self) -> (r: i64) {
        if self == 1 {
            1
        } else if self == -1 {
            -1
        } else {
            0
        }
    }

    fn equals(self, rhs: i64) -> (r: bool) {
        self == rhs
    }

    proof fn lemma_add_commutative(a: i64, b: i64) {
    }

    proof fn lemma_add_associative(a: i64, b: i64, c: i64) {
        let m = modulus();
        let ab = a.wrapping_add(b);
        let bc = b.wrapping_add(c);
        lemma_residue_wrapping_add(a, b);
        lemma_residue_wrapping_add(b, c);
        lemma_residue_wrapping_add(ab, c);
        lemma_residue_wrapping_add(a, bc);
        lemma_add_mod_noop(ab as int, c as int, m);
        lemma_add_mod_noop(a + b, c as int, m);
        lemma_add_mod_noop(a as int, bc as int, m);
        lemma_add_mod_noop(a as int, b + c, m);
        lemma_residue_injective(ab.wrapping_add(c), a.wrapping_add(bc));
    }

    proof fn lemma_add_zero(a: i64) {
    }

    proof fn lemma_sub_self(a: i64) {
    }

    proof fn lemma_sub_antisymmetric(a: i64, b: i64) {
        let m = modulus();
        let ba = b.wrapping_sub(a);
        lemma_residue_wrapping_sub(a, b);
        lemma_residue_wrapping_sub(b, a);
        lemma_residue_wrapping_sub(0, ba);
        lemma_sub_mod_noop(0, ba as int, m);
        lemma_sub_mod_noop(0, b - a, m);
        lemma_residue_injective(a.wrapping_sub(b), 0i64.wrapping_sub(ba));
    }

    proof fn lemma_add_sub_cancel(a: i64, b: i64) {
        let m = modulus();
        let ab = a.wrapping_add(b);
        lemma_residue_wrapping_add(a, b);
        lemma_residue_wrapping_sub(ab, b);
        lemma_sub_mod_noop(ab as int, b as int, m);
        lemma_sub_mod_noop(a + b, b as int, m);
        lemma_residue_injective(ab.wrapping_sub(b), a);
    }

    proof fn lemma_mul_commutative(a: i64, b: i64) {
        assert(a * b == b * a) by (nonlinear_arith);
    }

    proof fn lemma_mul_distributive(a: i64, b: i64, c: i64) {
        let m = modulus();
        let ab = a.wrapping_add(b);
        let ac = a.wrapping_mul(c);
        let bc = b.wrapping_mul(c);
        lemma_residue_wrapping_add(a, b);
        lemma_residue_wrapping_mul(ab, c);
        lemma_residue_wrapping_mul(a, c);
        lemma_residue_wrapping_mul(b, c);
        lemma_residue_wrapping_add(ac, bc);
        lemma_mul_mod_noop_general(ab as int, c as int, m);
        lemma_mul_mod_noop_general(a + b, c as int, m);
        assert((a + b) * c == a * c + b * c) by (nonlinear_arith);
        lemma_add_mod_noop(ac as int, bc as int, m);
        lemma_add_mod_noop(a * c, b * c, m);
        lemma_residue_injective(ab.wrapping_mul(c), ac.wrapping_add(bc));
    }

    proof fn lemma_mul_zero(a: i64) {
        assert(a * 0 == 0) by (nonlinear_arith);
    }

    proof fn lemma_sqrt_zero() {
        lemma_floor_sqrt_value(0, 0);
    }

    proof fn lemma_zero_equals_zero() {
    }
}

} // verus!
