//! The scalar algebra that the geometry kernel is generic over.
//!
//! The kernel does not fix a concrete scalar: every routine is generic over a
//! type implementing [`Float`], the capability set of an IEEE-style
//! floating-point number (arithmetic, square root, absolute value, min/max,
//! comparisons, and the usual constants). Callers supply the implementation;
//! the kernel's contracts are stated over the abstract operations, so what is
//! proved here holds for whatever scalar the caller brings, to the extent that
//! the implementation honours the few algebraic laws the trait demands.

use vstd::prelude::*;

verus! {

/// Abstract floating-point scalar.
///
/// Each executable operation has a specification-level counterpart
/// (`add` / `add_spec`, ...) left abstract per implementation; the executable
/// method promises to return exactly the value the spec function denotes.
/// The `law_*` proof obligations state the handful of exact algebraic facts
/// the kernel's lemmas rest on; all of them hold of IEEE binary
/// floating-point arithmetic (rounding is deterministic and symmetric under
/// operand negation, and the ordering predicates are consistent).
pub trait Float: Sized + Copy {
    /// Sum of `self` and `other`, as the implementation rounds it.
    spec fn add_spec(self, other: Self) -> Self;

    /// Difference `self - other`, as the implementation rounds it.
    spec fn sub_spec(self, other: Self) -> Self;

    /// Product of `self` and `other`, as the implementation rounds it.
    spec fn mul_spec(self, other: Self) -> Self;

    /// Quotient `self / other`, as the implementation rounds it.
    spec fn div_spec(self, other: Self) -> Self;

    /// Negation of `self`.
    spec fn neg_spec(self) -> Self;

    /// Absolute value of `self`.
    spec fn abs_spec(self) -> Self;

    /// Square root of `self`.
    spec fn sqrt_spec(self) -> Self;

    /// Reciprocal `1 / self`.
    spec fn recip_spec(self) -> Self;

    /// Minimum of `self` and `other`.
    spec fn min_spec(self, other: Self) -> Self;

    /// Maximum of `self` and `other`.
    spec fn max_spec(self, other: Self) -> Self;

    /// Strict order: `self < other`.
    spec fn lt_spec(self, other: Self) -> bool;

    /// Non-strict order: `self <= other`.
    spec fn le_spec(self, other: Self) -> bool;

    /// Whether `self` equals zero.
    spec fn is_zero_spec(self) -> bool;

    /// The additive identity.
    spec fn zero_spec() -> Self;

    /// The multiplicative identity.
    spec fn one_spec() -> Self;

    /// One half.
    spec fn half_spec() -> Self;

    /// The machine epsilon of the implementation.
    spec fn epsilon_spec() -> Self;

    /// Positive infinity.
    spec fn infinity_spec() -> Self;

    /// Negative infinity.
    spec fn neg_infinity_spec() -> Self;

    /// The scalar nearest to the integer `n`.
    spec fn from_u32_spec(n: u32) -> Self;

    fn add(self, other: Self) -> (r: Self)
        ensures
            r == self.add_spec(other),
    ;

    fn sub(self, other: Self) -> (r: Self)
        ensures
            r == self.sub_spec(other),
    ;

    fn mul(self, other: Self) -> (r: Self)
        ensures
            r == self.mul_spec(other),
    ;

    fn div(self, other: Self) -> (r: Self)
        ensures
            r == self.div_spec(other),
    ;

    fn neg(self) -> (r: Self)
        ensures
            r == self.neg_spec(),
    ;

    fn abs(self) -> (r: Self)
        ensures
            r == self.abs_spec(),
    ;

    fn sqrt(self) -> (r: Self)
        ensures
            r == self.sqrt_spec(),
    ;

    fn recip(self) -> (r: Self)
        ensures
            r == self.recip_spec(),
    ;

    fn min(self, other: Self) -> (r: Self)
        ensures
            r == self.min_spec(other),
    ;

    fn max(self, other: Self) -> (r: Self)
        ensures
            r == self.max_spec(other),
    ;

    fn lt(self, other: Self) -> (r: bool)
        ensures
            r == self.lt_spec(other),
    ;

    fn le(self, other: Self) -> (r: bool)
        ensures
            r == self.le_spec(other),
    ;

    fn is_zero(self) -> (r: bool)
        ensures
            r == self.is_zero_spec(),
    ;

    fn zero() -> (r: Self)
        ensures
            r == Self::zero_spec(),
    ;

    fn one() -> (r: Self)
        ensures
            r == Self::one_spec(),
    ;

    fn half() -> (r: Self)
        ensures
            r == Self::half_spec(),
    ;

    fn epsilon() -> (r: Self)
        ensures
            r == Self::epsilon_spec(),
    ;

    fn infinity() -> (r: Self)
        ensures
            r == Self::infinity_spec(),
    ;

    fn neg_infinity() -> (r: Self)
        ensures
            r == Self::neg_infinity_spec(),
    ;

    fn from_u32(n: u32) -> (r: Self)
        ensures
            r == Self::from_u32_spec(n),
    ;

    /// Multiplication does not depend on operand order. IEEE rounding is a
    /// function of the exact product, which is commutative.
    proof fn law_mul_comm(a: Self, b: Self)
        ensures
            a.mul_spec(b) == b.mul_spec(a),
    ;

    /// The square of a difference does not depend on the order of the
    /// operands of the subtraction: IEEE rounding is symmetric under
    /// negation, so `b - a` is the exact negation of `a - b`, and squaring
    /// discards the sign.
    proof fn law_sq_sub_swap(a: Self, b: Self)
        ensures
            a.sub_spec(b).mul_spec(a.sub_spec(b)) == b.sub_spec(a).mul_spec(b.sub_spec(a)),
    ;

    /// The strict order implies the non-strict order.
    proof fn law_lt_le(a: Self, b: Self)
        ensures
            a.lt_spec(b) ==> a.le_spec(b),
    ;

    /// The strict order excludes the reversed non-strict order.
    proof fn law_lt_not_ge(a: Self, b: Self)
        ensures
            a.lt_spec(b) ==> !b.le_spec(a),
    ;
}

} // verus!
