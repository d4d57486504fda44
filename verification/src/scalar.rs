//! The numbers the optimiser computes with.
//!
//! The engine never looks inside a number: it only combines numbers through
//! the operations of [`Scalar`]. Contracts speak of the results of those
//! operations through the `spec_*` functions below, and hold whenever each
//! operation is a function of its operands (see [`deterministic_arithmetic`]).
use vstd::prelude::*;

verus! {

/// A real number as the optimiser sees it.
///
/// Nothing is demanded of an implementation beyond the signatures: every
/// contract in this crate that names a computed value is stated under
/// [`deterministic_arithmetic`].
pub trait Scalar: Copy {
    /// The additive identity.
    fn zero() -> Self;

    /// The multiplicative identity.
    fn one() -> Self;

    /// `self + rhs`.
    fn add(self, rhs: Self) -> Self;

    /// `self - rhs`.
    fn sub(self, rhs: Self) -> Self;

    /// `self * rhs`.
    fn mul(self, rhs: Self) -> Self;

    /// `self / rhs`.
    fn div(self, rhs: Self) -> Self;

    /// `-self`.
    fn neg(self) -> Self;

    /// `self < rhs`.
    fn lt(self, rhs: Self) -> bool;

    /// Whether `self` is neither infinite nor undefined.
    fn is_finite(self) -> bool;
}

/// A value that `S::zero()` may return.
pub open spec fn spec_zero<S: Scalar>() -> S {
    choose|r: S| call_ensures(S::zero, (), r)
}

/// A value that `S::one()` may return.
pub open spec fn spec_one<S: Scalar>() -> S {
    choose|r: S| call_ensures(S::one, (), r)
}

/// A value that `a.add(b)` may return.
pub open spec fn spec_add<S: Scalar>(a: S, b: S) -> S {
    choose|r: S| call_ensures(S::add, (a, b), r)
}

/// A value that `a.sub(b)` may return.
pub open spec fn spec_sub<S: Scalar>(a: S, b: S) -> S {
    choose|r: S| call_ensures(S::sub, (a, b), r)
}

/// A value that `a.mul(b)` may return.
pub open spec fn spec_mul<S: Scalar>(a: S, b: S) -> S {
    choose|r: S| call_ensures(S::mul, (a, b), r)
}

/// A value that `a.div(b)` may return.
pub open spec fn spec_div<S: Scalar>(a: S, b: S) -> S {
    choose|r: S| call_ensures(S::div, (a, b), r)
}

/// A value that `a.neg()` may return.
pub open spec fn spec_neg<S: Scalar>(a: S) -> S {
    choose|r: S| call_ensures(S::neg, (a,), r)
}

/// An answer that `a.lt(b)` may give.
pub open spec fn spec_lt<S: Scalar>(a: S, b: S) -> bool {
    choose|r: bool| call_ensures(S::lt, (a, b), r)
}

/// An answer that `a.is_finite()` may give.
pub open spec fn spec_is_finite<S: Scalar>(a: S) -> bool {
    choose|r: bool| call_ensures(S::is_finite, (a,), r)
}

/// Every operation of `S` is a function of its operands: whatever a call
/// returns is the value that the matching `spec_*` function names.
pub open spec fn deterministic_arithmetic<S: Scalar>() -> bool {
    &&& forall|r: S| #[trigger] call_ensures(S::zero, (), r) ==> r == spec_zero::<S>()
    &&& forall|r: S| #[trigger] call_ensures(S::one, (), r) ==> r == spec_one::<S>()
    &&& forall|a: S, b: S, r: S| #[trigger] call_ensures(S::add, (a, b), r) ==> r == spec_add(a, b)
    &&& forall|a: S, b: S, r: S| #[trigger] call_ensures(S::sub, (a, b), r) ==> r == spec_sub(a, b)
    &&& forall|a: S, b: S, r: S| #[trigger] call_ensures(S::mul, (a, b), r) ==> r == spec_mul(a, b)
    &&& forall|a: S, b: S, r: S| #[trigger] call_ensures(S::div, (a, b), r) ==> r == spec_div(a, b)
    &&& forall|a: S, r: S| #[trigger] call_ensures(S::neg, (a,), r) ==> r == spec_neg(a)
    &&& forall|a: S, b: S, r: bool| #[trigger] call_ensures(S::lt, (a, b), r) ==> r == spec_lt(a, b)
    &&& forall|a: S, r: bool| #[trigger] call_ensures(S::is_finite, (a,), r) ==> r == spec_is_finite(a)
}

} // verus!
