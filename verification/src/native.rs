//! The native types and their conversions.

use vstd::prelude::*;
use crate::model::wrap_into;
use crate::private::Sealed;

verus! {

/// A type whose values have the same representation in memory as in the
/// columnar format: a fixed number of bytes, every pattern of which is a
/// value. The members are the signed integers of 8 to 128 bits and the
/// unsigned integers of 8 to 64 bits. `bool` is none: the format packs it into
/// bits. Nor are the floating-point types of the format: this library states
/// its contracts over integers.
///
/// Each member is described by the range of integers it represents and by the
/// one-to-one correspondence between its values and that range
/// ([`ArrowNativeType::lemma_model`]). The contracts of the conversions, of the
/// arithmetic and of the byte view are stated over that correspondence.
///
/// The trait is sealed: its members are the types for which this crate
/// implements it.
pub trait ArrowNativeType:
    std::fmt::Debug + Send + Sync + Copy + PartialOrd + Default + Sealed + 'static {
    /// The least integer that the type represents.
    spec fn min_int() -> int;

    /// The greatest integer that the type represents.
    spec fn max_int() -> int;

    /// The number of bytes that a value occupies.
    spec fn byte_width() -> nat;

    /// The integer that a value stands for.
    spec fn int_value(self) -> int;

    /// The value that stands for `i`, for `i` from `min_int()` to `max_int()`.
    spec fn of_int(i: int) -> Self;

    /// The integer of the type's range that differs from `i` by a multiple of
    /// the number of values of the type: `i` wrapped around at the boundary
    /// of the type, as often as it takes.
    spec fn wrap_int(i: int) -> int;

    /// Whether `from_i32` converts: true of the 32-bit signed type alone.
    spec fn takes_i32() -> bool;

    /// Whether `from_i64` converts: true of the 64-bit signed type alone.
    spec fn takes_i64() -> bool;

    /// Whether `from_i128` converts: true of the 128-bit signed type alone.
    spec fn takes_i128() -> bool;

    /// The values of the type correspond one to one to the integers from
    /// `min_int()` to `max_int()`, of which there are as many as `byte_width()`
    /// bytes have patterns; `wrap_int` reduces into that range; zero is in it
    /// and is the default value; the width is the size of the type in memory,
    /// at most 16; and a type that takes a fixed-width signed source
    /// represents every value of it.
    proof fn lemma_model()
        ensures
            forall|x: Self|
                Self::min_int() <= (#[trigger] x.int_value()) <= Self::max_int()
                    && Self::of_int(x.int_value()) == x,
            forall|i: int|
                Self::min_int() <= i <= Self::max_int() ==> (#[trigger] Self::of_int(
                    i,
                )).int_value() == i,
            forall|i: int|
                #[trigger] Self::wrap_int(i) == wrap_into(i, Self::min_int(), Self::max_int()),
            Self::min_int() <= 0 <= Self::max_int(),
            Self::max_int() - Self::min_int() + 1 == vstd::arithmetic::power::pow(
                256,
                Self::byte_width(),
            ),
            1 <= Self::byte_width() <= 16,
            vstd::layout::size_of::<Self>() == Self::byte_width(),
            i128::MIN <= Self::min_int() && Self::max_int() <= i128::MAX,
            forall|d: Self|
                call_ensures(<Self as Default>::default, (), d) ==> d == Self::of_int(0),
            Self::takes_i32() ==> Self::min_int() <= i32::MIN && i32::MAX <= Self::max_int(),
            Self::takes_i64() ==> Self::min_int() <= i64::MIN && i64::MAX <= Self::max_int(),
            Self::takes_i128() ==> Self::min_int() <= i128::MIN && i128::MAX <= Self::max_int(),
    ;

    /// Converts a `usize` to the type: the same number where the type
    /// represents it, `None` where it does not.
    fn from_usize(v: usize) -> (r: Option<Self>)
        ensures
            r == (if v <= Self::max_int() {
                Some(Self::of_int(v as int))
            } else {
                None
            }),
    ;

    /// Converts a value to `usize`: the same number, or `None` where it is
    /// negative or above `usize::MAX`.
    fn to_usize(&self) -> (r: Option<usize>)
        ensures
            r == (if 0 <= self.int_value() <= usize::MAX {
                Some(self.int_value() as usize)
            } else {
                None
            }),
    ;

    /// Converts a value to `isize`: the same number, or `None` where it is
    /// below `isize::MIN` or above `isize::MAX`.
    fn to_isize(&self) -> (r: Option<isize>)
        ensures
            r == (if isize::MIN <= self.int_value() <= isize::MAX {
                Some(self.int_value() as isize)
            } else {
                None
            }),
    ;

    /// Converts an `i32` to the type: the same number for the type that takes
    /// `i32`, `None` for every other type, whatever the number.
    fn from_i32(v: i32) -> (r: Option<Self>)
        ensures
            r == (if Self::takes_i32() {
                Some(Self::of_int(v as int))
            } else {
                None
            }),
    ;

    /// Converts an `i64` to the type: the same number for the type that takes
    /// `i64`, `None` for every other type, whatever the number.
    fn from_i64(v: i64) -> (r: Option<Self>)
        ensures
            r == (if Self::takes_i64() {
                Some(Self::of_int(v as int))
            } else {
                None
            }),
    ;

    /// Converts an `i128` to the type: the same number for the type that takes
    /// `i128`, `None` for every other type, whatever the number.
    fn from_i128(v: i128) -> (r: Option<Self>)
        ensures
            r == (if Self::takes_i128() {
                Some(Self::of_int(v as int))
            } else {
                None
            }),
    ;

    /// The value as an `i128`, which holds every native integer.
    fn as_i128(self) -> (r: i128)
        ensures
            r == self.int_value(),
    ;
}

/// The value of `T` that stands for `i`, where `T` represents `i`.
pub open spec fn exact<T: ArrowNativeType>(i: int) -> Option<T> {
    if T::min_int() <= i <= T::max_int() {
        Some(T::of_int(i))
    } else {
        None
    }
}

/// The value of `T` that stands for `i` reduced into the range of `T`.
pub open spec fn modular<T: ArrowNativeType>(i: int) -> T {
    T::of_int(T::wrap_int(i))
}

} // verus!
