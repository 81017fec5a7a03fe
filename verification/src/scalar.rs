//! The numeric element type that the statistics are computed over.

use vstd::prelude::*;

verus! {

/// A floating-point-like number: the element type of every array in this crate.
///
/// The crate never looks inside a value. It asks whether a value compares
/// equal to zero, and combines values with the operations below. Each `_spec`
/// function says what the operation beside it returns, as a function of the
/// operands alone: equal operands always give the same result.
///
/// No type of this crate implements the trait. Everything that is proved
/// about a computation over `F` is proved from the clauses stated here, and
/// holds for an implementation that meets them. For the floating-point types
/// of the machine that means: `is_zero` is `== 0.0`, which holds of both
/// zeros and of nothing else, and the three operations are `+`, `*` and `/`.
/// Code that is not verified writes each `_spec` function like the operation
/// that it describes.
pub trait Float: Copy + Send + Sync {
    /// The additive identity.
    spec fn zero_spec() -> Self;

    /// The multiplicative identity.
    spec fn one_spec() -> Self;

    /// The number that stands for a count.
    spec fn from_count_spec(count: u128) -> Self;

    /// Whether the value compares equal to zero.
    spec fn is_zero_spec(self) -> bool;

    /// The sum of two values.
    spec fn add_spec(self, rhs: Self) -> Self;

    /// The product of two values.
    spec fn mul_spec(self, rhs: Self) -> Self;

    /// The quotient of `self` by `divisor`.
    spec fn div_spec(self, divisor: Self) -> Self;

    /// The additive identity.
    fn zero() -> (z: Self)
        ensures
            z == Self::zero_spec(),
    ;

    /// The multiplicative identity; it does not compare equal to zero.
    fn one() -> (u: Self)
        ensures
            u == Self::one_spec(),
            !u.is_zero_spec(),
    ;

    /// The number that stands for a count; it compares equal to zero for the
    /// count 0 and for no other.
    fn from_count(count: u128) -> (c: Self)
        ensures
            c == Self::from_count_spec(count),
            c.is_zero_spec() <==> count == 0,
    ;

    /// Whether the value compares equal to zero.
    fn is_zero(self) -> (b: bool)
        ensures
            b == self.is_zero_spec(),
    ;

    /// Adds two values.
    fn add(self, rhs: Self) -> (s: Self)
        ensures
            s == self.add_spec(rhs),
    ;

    /// Multiplies two values.
    fn mul(self, rhs: Self) -> (p: Self)
        ensures
            p == self.mul_spec(rhs),
    ;

    /// Divides `self` by a divisor that does not compare equal to zero.
    fn div(self, divisor: Self) -> (q: Self)
        requires
            !divisor.is_zero_spec(),
        ensures
            q == self.div_spec(divisor),
    ;
}

/// The value itself, or `replacement` where the value compares equal to zero.
pub open spec fn or_if_zero_spec<F: Float>(v: F, replacement: F) -> F {
    if v.is_zero_spec() {
        replacement
    } else {
        v
    }
}

/// Gives the value back, or `replacement` where the value compares equal to
/// zero.
pub fn or_if_zero<F: Float>(v: F, replacement: F) -> (r: F)
    ensures
        r == or_if_zero_spec(v, replacement),
{
    if v.is_zero() {
        replacement
    } else {
        v
    }
}

} // verus!
