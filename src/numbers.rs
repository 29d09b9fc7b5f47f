//! # Real Number
//! Most algorithms in cora rely on basic linear operations like dot product.
//! This module defines real number and some useful functions that are used in the
//! linear algebra module.
//!
//! A number type supplies its own arithmetic through the required methods of [`Real`];
//! the spec functions that their contracts name are that arithmetic. The policies that
//! keep the extended functions stable (`ln_1pe`, `sigmoid`) are default methods here,
//! verified once for every number type.
use vstd::prelude::*;

verus! {

/// Defines real number
///
/// An implementation verified with Verus defines the spec functions; their default
/// bodies only let a type implement the trait outside Verus, and say nothing of any
/// number.
pub trait Real: Copy + core::fmt::Debug + Sized {
    /// The number zero.
    closed spec fn spec_zero() -> Self {
        vstd::pervasive::arbitrary()
    }

    /// The number one.
    closed spec fn spec_one() -> Self {
        vstd::pervasive::arbitrary()
    }

    /// The number nearest to the integer `n`.
    closed spec fn spec_of_int(n: int) -> Self {
        vstd::pervasive::arbitrary()
    }

    /// The sum `a + b`.
    closed spec fn spec_add(a: Self, b: Self) -> Self {
        vstd::pervasive::arbitrary()
    }

    /// The difference `a - b`.
    closed spec fn spec_sub(a: Self, b: Self) -> Self {
        vstd::pervasive::arbitrary()
    }

    /// The product `a * b`.
    closed spec fn spec_mul(a: Self, b: Self) -> Self {
        vstd::pervasive::arbitrary()
    }

    /// The quotient `a / b`.
    closed spec fn spec_div(a: Self, b: Self) -> Self {
        vstd::pervasive::arbitrary()
    }

    /// The negation `-a`.
    closed spec fn spec_neg(a: Self) -> Self {
        vstd::pervasive::arbitrary()
    }

    /// Whether `a < b`.
    closed spec fn spec_lt(a: Self, b: Self) -> bool {
        vstd::pervasive::arbitrary()
    }

    /// The exponential `e^a`.
    closed spec fn spec_exp(a: Self) -> Self {
        vstd::pervasive::arbitrary()
    }

    /// The natural logarithm `ln(1 + a)`.
    closed spec fn spec_ln_1p(a: Self) -> Self {
        vstd::pervasive::arbitrary()
    }

    /// The square root of `a`.
    closed spec fn spec_sqrt(a: Self) -> Self {
        vstd::pervasive::arbitrary()
    }

    /// The absolute value of `a`.
    closed spec fn spec_abs(a: Self) -> Self {
        vstd::pervasive::arbitrary()
    }

    /// The magnitude of `a` with the sign of `sign`.
    closed spec fn spec_copysign(a: Self, sign: Self) -> Self {
        vstd::pervasive::arbitrary()
    }

    /// Return 0
    fn zero() -> (r: Self)
        ensures
            r == Self::spec_zero(),
    ;

    /// Return 1
    fn one() -> (r: Self)
        ensures
            r == Self::spec_one(),
    ;

    /// Convert a small integer.
    fn from_i32(n: i32) -> (r: Self)
        ensures
            r == Self::spec_of_int(n as int),
    ;

    /// Convert a count.
    fn from_usize(n: usize) -> (r: Self)
        ensures
            r == Self::spec_of_int(n as int),
    ;

    /// Return `self + other`
    fn add(self, other: Self) -> (r: Self)
        ensures
            r == Self::spec_add(self, other),
    ;

    /// Return `self - other`
    fn sub(self, other: Self) -> (r: Self)
        ensures
            r == Self::spec_sub(self, other),
    ;

    /// Return `self * other`
    fn mul(self, other: Self) -> (r: Self)
        ensures
            r == Self::spec_mul(self, other),
    ;

    /// Return `self / other`
    fn div(self, other: Self) -> (r: Self)
        ensures
            r == Self::spec_div(self, other),
    ;

    /// Return `-self`
    fn neg(self) -> (r: Self)
        ensures
            r == Self::spec_neg(self),
    ;

    /// Return true if `self < other`
    fn lt(self, other: Self) -> (r: bool)
        ensures
            r == Self::spec_lt(self, other),
    ;

    /// Return \\( e^x \\)
    fn exp(self) -> (r: Self)
        ensures
            r == Self::spec_exp(self),
    ;

    /// Return \\( \ln(1 + x) \\)
    fn ln_1p(self) -> (r: Self)
        ensures
            r == Self::spec_ln_1p(self),
    ;

    /// Return the square root.
    fn sqrt(self) -> (r: Self)
        ensures
            r == Self::spec_sqrt(self),
    ;

    /// Copy sign from `sign` - another real number
    fn copysign(self, sign: Self) -> (r: Self)
        ensures
            r == Self::spec_copysign(self, sign),
    ;

    /// Caculate natural \\( \ln(1 + e^x) \\) without overflow.
    fn ln_1pe(self) -> (r: Self)
        ensures
            Self::spec_lt(Self::spec_of_int(15), self) ==> r == self,
            !Self::spec_lt(Self::spec_of_int(15), self) ==> r == Self::spec_ln_1p(
                Self::spec_exp(self),
            ),
    {
        // avoid overflow
        if Self::from_i32(15).lt(self) {
            self
        } else {
            self.exp().ln_1p()
        }
    }

    /// Efficient implementation of sigmoid function, \\( S(x) = \frac{1}{1 + e^{-x}} \\)
    fn sigmoid(self) -> (r: Self)
        ensures
            Self::spec_lt(self, Self::spec_of_int(-40)) ==> r == Self::spec_zero(),
            !Self::spec_lt(self, Self::spec_of_int(-40)) && Self::spec_lt(Self::spec_of_int(40), self)
                ==> r == Self::spec_one(),
            !Self::spec_lt(self, Self::spec_of_int(-40)) && !Self::spec_lt(Self::spec_of_int(40), self)
                ==> r == Self::spec_div(
                Self::spec_one(),
                Self::spec_add(Self::spec_one(), Self::spec_exp(Self::spec_neg(self))),
            ),
    {
        // error less than eps
        if self.lt(Self::from_i32(-40)) {
            Self::zero()
        } else if Self::from_i32(40).lt(self) {
            Self::one()
        } else {
            Self::one().div(Self::one().add(self.neg().exp()))
        }
    }

    /// Return psudorandom number between 0 and 1
    fn rand() -> Self;

    /// Return 2
    fn two() -> (r: Self)
        ensures
            r == Self::spec_of_int(2),
    ;

    /// Return .5
    fn half() -> (r: Self)
        ensures
            r == Self::spec_div(Self::spec_one(), Self::spec_of_int(2)),
    ;

    /// Return \\( x^2 \\)
    fn square(self) -> (r: Self)
        ensures
            r == Self::spec_mul(self, self),
    {
        self.mul(self)
    }

    /// Raw bit pattern, reinterpreted as 32 bits.
    fn to_f32_bits(self) -> u32;
}

} // verus!
