//! The numeric interface of the library, and the relations that contracts
//! use to speak about results of its operations.

use vstd::prelude::*;

verus! {

/// Ring-like arithmetic on coordinates.
///
/// The methods carry no contract of their own: an implementation may be exact,
/// rounded, saturating or wrapping. The library only fixes which operations
/// are applied to which operands, in which order.
pub trait Scalar: Copy {
    fn zero() -> Self;

    fn one() -> Self;

    fn add(self, rhs: Self) -> Self;

    fn mul(self, rhs: Self) -> Self;

    fn neg(self) -> Self;
}

/// What poses and projections need beyond [`Scalar`].
pub trait Real: Scalar {
    /// The scalar that stands for a whole number.
    fn from_i32(value: i32) -> Self;

    /// The circle constant.
    fn pi() -> Self;

    fn div(self, rhs: Self) -> Self;

    /// The non-negative remainder of `self` by `rhs`.
    fn rem_euclid(self, rhs: Self) -> Self;

    fn sin(self) -> Self;

    fn cos(self) -> Self;

    /// The least whole number that is not below `self`.
    fn ceil(self) -> Self;

    /// The greatest whole number that is not above `self`.
    fn floor(self) -> Self;

    /// Whether `self` is strictly below `rhs`.
    fn lt(self, rhs: Self) -> bool;

    /// Whether `self` and `rhs` compare equal.
    fn same(self, rhs: Self) -> bool;

    /// The whole number nearest to `self` in the direction of zero.
    fn to_i32(self) -> i32;
}

/// `r` is a value that `T::zero()` may return.
pub open spec fn is_zero<T: Scalar>(r: T) -> bool {
    call_ensures(T::zero, (), r)
}

/// `r` is a value that `T::one()` may return.
pub open spec fn is_one<T: Scalar>(r: T) -> bool {
    call_ensures(T::one, (), r)
}

/// `r` is a value that `a.add(b)` may return.
pub open spec fn is_sum<T: Scalar>(a: T, b: T, r: T) -> bool {
    call_ensures(T::add, (a, b), r)
}

/// `r` is a value that `a.add(b.neg())` may return: subtraction is adding
/// the negation.
pub open spec fn is_difference<T: Scalar>(a: T, b: T, r: T) -> bool {
    exists|minus_b: T| is_negation(b, minus_b) && #[trigger] is_sum(a, minus_b, r)
}

/// `r` is a value that `a.mul(b)` may return.
pub open spec fn is_product<T: Scalar>(a: T, b: T, r: T) -> bool {
    call_ensures(T::mul, (a, b), r)
}

/// `r` is a value that `a.neg()` may return.
pub open spec fn is_negation<T: Scalar>(a: T, r: T) -> bool {
    call_ensures(T::neg, (a,), r)
}

/// `r` is a value that `T::from_i32(value)` may return.
pub open spec fn is_number<T: Real>(value: i32, r: T) -> bool {
    call_ensures(T::from_i32, (value,), r)
}

/// `r` is a value that `T::pi()` may return.
pub open spec fn is_pi<T: Real>(r: T) -> bool {
    call_ensures(T::pi, (), r)
}

/// `r` is a value that `a.div(b)` may return.
pub open spec fn is_quotient<T: Real>(a: T, b: T, r: T) -> bool {
    call_ensures(T::div, (a, b), r)
}

/// `r` is a value that `a.rem_euclid(b)` may return.
pub open spec fn is_remainder<T: Real>(a: T, b: T, r: T) -> bool {
    call_ensures(T::rem_euclid, (a, b), r)
}

/// `r` is a value that `a.sin()` may return.
pub open spec fn is_sine<T: Real>(a: T, r: T) -> bool {
    call_ensures(T::sin, (a,), r)
}

/// `r` is a value that `a.cos()` may return.
pub open spec fn is_cosine<T: Real>(a: T, r: T) -> bool {
    call_ensures(T::cos, (a,), r)
}

/// `r` is a value that `a.ceil()` may return.
pub open spec fn is_ceiling<T: Real>(a: T, r: T) -> bool {
    call_ensures(T::ceil, (a,), r)
}

/// `r` is a value that `a.floor()` may return.
pub open spec fn is_floor<T: Real>(a: T, r: T) -> bool {
    call_ensures(T::floor, (a,), r)
}

/// `verdict` is an answer that `a.lt(b)` may give.
pub open spec fn is_less<T: Real>(a: T, b: T, verdict: bool) -> bool {
    call_ensures(T::lt, (a, b), verdict)
}

/// `verdict` is an answer that `a.same(b)` may give.
pub open spec fn is_same<T: Real>(a: T, b: T, verdict: bool) -> bool {
    call_ensures(T::same, (a, b), verdict)
}

/// `r` is a value that `a.to_i32()` may return.
pub open spec fn is_truncation<T: Real>(a: T, r: i32) -> bool {
    call_ensures(T::to_i32, (a,), r)
}

/// `a` minus `b`, as the sum of `a` and the negation of `b`.
pub fn difference<T: Scalar>(a: T, b: T) -> (r: T)
    ensures
        is_difference(a, b, r),
{
    let minus_b = b.neg();
    let r = a.add(minus_b);
    assert(is_sum(a, minus_b, r));
    r
}

} // verus!
