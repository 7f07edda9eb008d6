//! Arithmetic on native types that says what happens on overflow.

use vstd::prelude::*;
use std::ops::{Add, Div, Mul, Sub};
use crate::model::{lemma_wrap_into_identity, truncated_quotient};
use crate::native::{exact, modular, ArrowNativeType};

verus! {

/// What `add_checked` returns: the sum, where the type represents it.
pub open spec fn checked_sum<T: ArrowNativeType>(a: T, b: T) -> Option<T> {
    exact::<T>(a.int_value() + b.int_value())
}

/// What `add_wrapping` returns: the sum reduced into the type's range.
pub open spec fn wrapping_sum<T: ArrowNativeType>(a: T, b: T) -> T {
    modular::<T>(a.int_value() + b.int_value())
}

/// What `sub_checked` returns: the difference, where the type represents it.
pub open spec fn checked_difference<T: ArrowNativeType>(a: T, b: T) -> Option<T> {
    exact::<T>(a.int_value() - b.int_value())
}

/// What `sub_wrapping` returns: the difference reduced into the type's range.
pub open spec fn wrapping_difference<T: ArrowNativeType>(a: T, b: T) -> T {
    modular::<T>(a.int_value() - b.int_value())
}

/// What `mul_checked` returns: the product, where the type represents it.
pub open spec fn checked_product<T: ArrowNativeType>(a: T, b: T) -> Option<T> {
    exact::<T>(a.int_value() * b.int_value())
}

/// What `mul_wrapping` returns: the product reduced into the type's range.
pub open spec fn wrapping_product<T: ArrowNativeType>(a: T, b: T) -> T {
    modular::<T>(a.int_value() * b.int_value())
}

/// What `div_checked` returns: nothing for a zero divisor, else the quotient
/// rounded toward zero, where the type represents it.
pub open spec fn checked_quotient<T: ArrowNativeType>(a: T, b: T) -> Option<T> {
    if b.int_value() == 0 {
        None
    } else {
        exact::<T>(truncated_quotient(a.int_value(), b.int_value()))
    }
}

/// What `div_wrapping` returns for a divisor other than zero: the quotient
/// rounded toward zero and reduced into the type's range.
pub open spec fn wrapping_quotient<T: ArrowNativeType>(a: T, b: T) -> T
    recommends
        b.int_value() != 0,
{
    modular::<T>(truncated_quotient(a.int_value(), b.int_value()))
}

/// The four arithmetic operations on a native type, each in two forms. The
/// checked form returns the exact result, or `None` where the type does not
/// represent it. The wrapping form always returns a value: the exact result
/// reduced modulo the number of values of the type.
pub trait ArrowNativeTypeOp:
    ArrowNativeType + Add<Output = Self> + Sub<Output = Self> + Mul<Output = Self> + Div<
    Output = Self,
> {
    /// The sum, or `None` where it is below the least or above the greatest
    /// value of the type.
    fn add_checked(self, rhs: Self) -> (r: Option<Self>)
        ensures
            r == checked_sum(self, rhs),
    ;

    /// The sum, wrapped around at the boundary of the type.
    fn add_wrapping(self, rhs: Self) -> (r: Self)
        ensures
            r == wrapping_sum(self, rhs),
    ;

    /// The difference, or `None` where it is below the least or above the
    /// greatest value of the type.
    fn sub_checked(self, rhs: Self) -> (r: Option<Self>)
        ensures
            r == checked_difference(self, rhs),
    ;

    /// The difference, wrapped around at the boundary of the type.
    fn sub_wrapping(self, rhs: Self) -> (r: Self)
        ensures
            r == wrapping_difference(self, rhs),
    ;

    /// The product, or `None` where it is below the least or above the
    /// greatest value of the type.
    fn mul_checked(self, rhs: Self) -> (r: Option<Self>)
        ensures
            r == checked_product(self, rhs),
    ;

    /// The product, wrapped around at the boundary of the type.
    fn mul_wrapping(self, rhs: Self) -> (r: Self)
        ensures
            r == wrapping_product(self, rhs),
    ;

    /// The quotient rounded toward zero, or `None` where the divisor is zero
    /// or the quotient is above the greatest value of the type (the least
    /// value of a signed type divided by -1).
    fn div_checked(self, rhs: Self) -> (r: Option<Self>)
        ensures
            r == checked_quotient(self, rhs),
    ;

    /// The quotient rounded toward zero, wrapped around at the boundary of the
    /// type: the least value of a signed type divided by -1 is that least
    /// value again. The divisor must not be zero.
    fn div_wrapping(self, rhs: Self) -> (r: Self)
        requires
            rhs.int_value() != 0,
        ensures
            r == wrapping_quotient(self, rhs),
    ;
}

/// Where a type represents an integer, the reduction of that integer into
/// the type's range is the same value; where it does not, there is no exact
/// value.
pub proof fn lemma_exact_is_modular<T: ArrowNativeType>(i: int)
    ensures
        exact::<T>(i) is None <==> (i < T::min_int() || i > T::max_int()),
        exact::<T>(i) is Some ==> exact::<T>(i) == Some(modular::<T>(i)),
{
    T::lemma_model();
    if T::min_int() <= i <= T::max_int() {
        lemma_wrap_into_identity(i, T::min_int(), T::max_int());
    }
}

/// `add_checked` returns `None` if and only if the sum overflows the type's
/// range, and a value that it returns is the value that `add_wrapping`
/// returns.
pub proof fn law_add_checked_is_wrapping<T: ArrowNativeTypeOp>(a: T, b: T)
    ensures
        checked_sum(a, b) is None <==> (a.int_value() + b.int_value() < T::min_int()
            || a.int_value() + b.int_value() > T::max_int()),
        checked_sum(a, b) is Some ==> checked_sum(a, b) == Some(wrapping_sum(a, b)),
{
    lemma_exact_is_modular::<T>(a.int_value() + b.int_value());
}

/// `sub_checked` returns `None` if and only if the difference overflows the
/// type's range, and a value that it returns is the value that
/// `sub_wrapping` returns.
pub proof fn law_sub_checked_is_wrapping<T: ArrowNativeTypeOp>(a: T, b: T)
    ensures
        checked_difference(a, b) is None <==> (a.int_value() - b.int_value() < T::min_int()
            || a.int_value() - b.int_value() > T::max_int()),
        checked_difference(a, b) is Some ==> checked_difference(a, b) == Some(
            wrapping_difference(a, b),
        ),
{
    lemma_exact_is_modular::<T>(a.int_value() - b.int_value());
}

/// `mul_checked` returns `None` if and only if the product overflows the
/// type's range, and a value that it returns is the value that
/// `mul_wrapping` returns.
pub proof fn law_mul_checked_is_wrapping<T: ArrowNativeTypeOp>(a: T, b: T)
    ensures
        checked_product(a, b) is None <==> (a.int_value() * b.int_value() < T::min_int()
            || a.int_value() * b.int_value() > T::max_int()),
        checked_product(a, b) is Some ==> checked_product(a, b) == Some(wrapping_product(a, b)),
{
    lemma_exact_is_modular::<T>(a.int_value() * b.int_value());
}

/// For a divisor other than zero, `div_checked` returns `None` if and only
/// if the quotient overflows the type's range, and a value that it returns is
/// the value that `div_wrapping` returns.
pub proof fn law_div_checked_is_wrapping<T: ArrowNativeTypeOp>(a: T, b: T)
    requires
        b.int_value() != 0,
    ensures
        checked_quotient(a, b) is None <==> (truncated_quotient(a.int_value(), b.int_value())
            < T::min_int() || truncated_quotient(a.int_value(), b.int_value()) > T::max_int()),
        checked_quotient(a, b) is Some ==> checked_quotient(a, b) == Some(
            wrapping_quotient(a, b),
        ),
{
    lemma_exact_is_modular::<T>(truncated_quotient(a.int_value(), b.int_value()));
}

/// `div_checked` returns `None` for every dividend when the divisor is zero.
pub proof fn law_div_checked_by_zero<T: ArrowNativeTypeOp>(a: T, zero: T)
    requires
        zero.int_value() == 0,
    ensures
        checked_quotient(a, zero) is None,
{
}

} // verus!
