//! The conversions between the native integer types and `usize` / `isize`
//! that the crate `num` performs. Each function here makes one call into
//! `num`; its contract is taken on trust from that crate's source, which
//! converts exactly where the target type holds the value and gives `None`
//! where it does not.

use vstd::prelude::*;

verus! {

/// `num::FromPrimitive::from_usize` for `i8`: the same number as an `i8`
/// where `i8` holds it, `None` where the number is above `i8::MAX`.
#[verifier::external_body]
pub(crate) fn i8_from_usize(v: usize) -> (r: Option<i8>)
    ensures
        r == (if v <= i8::MAX {
            Some(v as i8)
        } else {
            None
        }),
{
    num::FromPrimitive::from_usize(v)
}

/// `num::ToPrimitive::to_usize` for `i8`: the same number as a `usize`
/// where it is neither negative nor above `usize::MAX`, else `None`.
#[verifier::external_body]
pub(crate) fn i8_to_usize(v: &i8) -> (r: Option<usize>)
    ensures
        r == (if 0 <= *v <= usize::MAX {
            Some(*v as usize)
        } else {
            None
        }),
{
    num::ToPrimitive::to_usize(v)
}

/// `num::ToPrimitive::to_isize` for `i8`: the same number as an `isize`
/// where it lies between `isize::MIN` and `isize::MAX`, else `None`.
#[verifier::external_body]
pub(crate) fn i8_to_isize(v: &i8) -> (r: Option<isize>)
    ensures
        r == (if isize::MIN <= *v <= isize::MAX {
            Some(*v as isize)
        } else {
            None
        }),
{
    num::ToPrimitive::to_isize(v)
}

/// `num::FromPrimitive::from_usize` for `i16`: the same number as an `i16`
/// where `i16` holds it, `None` where the number is above `i16::MAX`.
#[verifier::external_body]
pub(crate) fn i16_from_usize(v: usize) -> (r: Option<i16>)
    ensures
        r == (if v <= i16::MAX {
            Some(v as i16)
        } else {
            None
        }),
{
    num::FromPrimitive::from_usize(v)
}

/// `num::ToPrimitive::to_usize` for `i16`: the same number as a `usize`
/// where it is neither negative nor above `usize::MAX`, else `None`.
#[verifier::external_body]
pub(crate) fn i16_to_usize(v: &i16) -> (r: Option<usize>)
    ensures
        r == (if 0 <= *v <= usize::MAX {
            Some(*v as usize)
        } else {
            None
        }),
{
    num::ToPrimitive::to_usize(v)
}

/// `num::ToPrimitive::to_isize` for `i16`: the same number as an `isize`
/// where it lies between `isize::MIN` and `isize::MAX`, else `None`.
#[verifier::external_body]
pub(crate) fn i16_to_isize(v: &i16) -> (r: Option<isize>)
    ensures
        r == (if isize::MIN <= *v <= isize::MAX {
            Some(*v as isize)
        } else {
            None
        }),
{
    num::ToPrimitive::to_isize(v)
}

/// `num::FromPrimitive::from_usize` for `i32`: the same number as an `i32`
/// where `i32` holds it, `None` where the number is above `i32::MAX`.
#[verifier::external_body]
pub(crate) fn i32_from_usize(v: usize) -> (r: Option<i32>)
    ensures
        r == (if v <= i32::MAX {
            Some(v as i32)
        } else {
            None
        }),
{
    num::FromPrimitive::from_usize(v)
}

/// `num::ToPrimitive::to_usize` for `i32`: the same number as a `usize`
/// where it is neither negative nor above `usize::MAX`, else `None`.
#[verifier::external_body]
pub(crate) fn i32_to_usize(v: &i32) -> (r: Option<usize>)
    ensures
        r == (if 0 <= *v <= usize::MAX {
            Some(*v as usize)
        } else {
            None
        }),
{
    num::ToPrimitive::to_usize(v)
}

/// `num::ToPrimitive::to_isize` for `i32`: the same number as an `isize`
/// where it lies between `isize::MIN` and `isize::MAX`, else `None`.
#[verifier::external_body]
pub(crate) fn i32_to_isize(v: &i32) -> (r: Option<isize>)
    ensures
        r == (if isize::MIN <= *v <= isize::MAX {
            Some(*v as isize)
        } else {
            None
        }),
{
    num::ToPrimitive::to_isize(v)
}

/// `num::FromPrimitive::from_usize` for `i64`: the same number as an `i64`
/// where `i64` holds it, `None` where the number is above `i64::MAX`.
#[verifier::external_body]
pub(crate) fn i64_from_usize(v: usize) -> (r: Option<i64>)
    ensures
        r == (if v <= i64::MAX {
            Some(v as i64)
        } else {
            None
        }),
{
    num::FromPrimitive::from_usize(v)
}

/// `num::ToPrimitive::to_usize` for `i64`: the same number as a `usize`
/// where it is neither negative nor above `usize::MAX`, else `None`.
#[verifier::external_body]
pub(crate) fn i64_to_usize(v: &i64) -> (r: Option<usize>)
    ensures
        r == (if 0 <= *v <= usize::MAX {
            Some(*v as usize)
        } else {
            None
        }),
{
    num::ToPrimitive::to_usize(v)
}

/// `num::ToPrimitive::to_isize` for `i64`: the same number as an `isize`
/// where it lies between `isize::MIN` and `isize::MAX`, else `None`.
#[verifier::external_body]
pub(crate) fn i64_to_isize(v: &i64) -> (r: Option<isize>)
    ensures
        r == (if isize::MIN <= *v <= isize::MAX {
            Some(*v as isize)
        } else {
            None
        }),
{
    num::ToPrimitive::to_isize(v)
}

/// `num::FromPrimitive::from_usize` for `i128`: the same number as an `i128`
/// where `i128` holds it, `None` where the number is above `i128::MAX`.
#[verifier::external_body]
pub(crate) fn i128_from_usize(v: usize) -> (r: Option<i128>)
    ensures
        r == (if v <= i128::MAX {
            Some(v as i128)
        } else {
            None
        }),
{
    num::FromPrimitive::from_usize(v)
}

/// `num::ToPrimitive::to_usize` for `i128`: the same number as a `usize`
/// where it is neither negative nor above `usize::MAX`, else `None`.
#[verifier::external_body]
pub(crate) fn i128_to_usize(v: &i128) -> (r: Option<usize>)
    ensures
        r == (if 0 <= *v <= usize::MAX {
            Some(*v as usize)
        } else {
            None
        }),
{
    num::ToPrimitive::to_usize(v)
}

/// `num::ToPrimitive::to_isize` for `i128`: the same number as an `isize`
/// where it lies between `isize::MIN` and `isize::MAX`, else `None`.
#[verifier::external_body]
pub(crate) fn i128_to_isize(v: &i128) -> (r: Option<isize>)
    ensures
        r == (if isize::MIN <= *v <= isize::MAX {
            Some(*v as isize)
        } else {
            None
        }),
{
    num::ToPrimitive::to_isize(v)
}

/// `num::FromPrimitive::from_usize` for `u8`: the same number as an `u8`
/// where `u8` holds it, `None` where the number is above `u8::MAX`.
#[verifier::external_body]
pub(crate) fn u8_from_usize(v: usize) -> (r: Option<u8>)
    ensures
        r == (if v <= u8::MAX {
            Some(v as u8)
        } else {
            None
        }),
{
    num::FromPrimitive::from_usize(v)
}

/// `num::ToPrimitive::to_usize` for `u8`: the same number as a `usize`
/// where it is neither negative nor above `usize::MAX`, else `None`.
#[verifier::external_body]
pub(crate) fn u8_to_usize(v: &u8) -> (r: Option<usize>)
    ensures
        r == (if 0 <= *v <= usize::MAX {
            Some(*v as usize)
        } else {
            None
        }),
{
    num::ToPrimitive::to_usize(v)
}

/// `num::ToPrimitive::to_isize` for `u8`: the same number as an `isize`
/// where it lies between `isize::MIN` and `isize::MAX`, else `None`.
#[verifier::external_body]
pub(crate) fn u8_to_isize(v: &u8) -> (r: Option<isize>)
    ensures
        r == (if isize::MIN <= *v <= isize::MAX {
            Some(*v as isize)
        } else {
            None
        }),
{
    num::ToPrimitive::to_isize(v)
}

/// `num::FromPrimitive::from_usize` for `u16`: the same number as an `u16`
/// where `u16` holds it, `None` where the number is above `u16::MAX`.
#[verifier::external_body]
pub(crate) fn u16_from_usize(v: usize) -> (r: Option<u16>)
    ensures
        r == (if v <= u16::MAX {
            Some(v as u16)
        } else {
            None
        }),
{
    num::FromPrimitive::from_usize(v)
}

/// `num::ToPrimitive::to_usize` for `u16`: the same number as a `usize`
/// where it is neither negative nor above `usize::MAX`, else `None`.
#[verifier::external_body]
pub(crate) fn u16_to_usize(v: &u16) -> (r: Option<usize>)
    ensures
        r == (if 0 <= *v <= usize::MAX {
            Some(*v as usize)
        } else {
            None
        }),
{
    num::ToPrimitive::to_usize(v)
}

/// `num::ToPrimitive::to_isize` for `u16`: the same number as an `isize`
/// where it lies between `isize::MIN` and `isize::MAX`, else `None`.
#[verifier::external_body]
pub(crate) fn u16_to_isize(v: &u16) -> (r: Option<isize>)
    ensures
        r == (if isize::MIN <= *v <= isize::MAX {
            Some(*v as isize)
        } else {
            None
        }),
{
    num::ToPrimitive::to_isize(v)
}

/// `num::FromPrimitive::from_usize` for `u32`: the same number as an `u32`
/// where `u32` holds it, `None` where the number is above `u32::MAX`.
#[verifier::external_body]
pub(crate) fn u32_from_usize(v: usize) -> (r: Option<u32>)
    ensures
        r == (if v <= u32::MAX {
            Some(v as u32)
        } else {
            None
        }),
{
    num::FromPrimitive::from_usize(v)
}

/// `num::ToPrimitive::to_usize` for `u32`: the same number as a `usize`
/// where it is neither negative nor above `usize::MAX`, else `None`.
#[verifier::external_body]
pub(crate) fn u32_to_usize(v: &u32) -> (r: Option<usize>)
    ensures
        r == (if 0 <= *v <= usize::MAX {
            Some(*v as usize)
        } else {
            None
        }),
{
    num::ToPrimitive::to_usize(v)
}

/// `num::ToPrimitive::to_isize` for `u32`: the same number as an `isize`
/// where it lies between `isize::MIN` and `isize::MAX`, else `None`.
#[verifier::external_body]
pub(crate) fn u32_to_isize(v: &u32) -> (r: Option<isize>)
    ensures
        r == (if isize::MIN <= *v <= isize::MAX {
            Some(*v as isize)
        } else {
            None
        }),
{
    num::ToPrimitive::to_isize(v)
}

/// `num::FromPrimitive::from_usize` for `u64`: the same number as an `u64`
/// where `u64` holds it, `None` where the number is above `u64::MAX`.
#[verifier::external_body]
pub(crate) fn u64_from_usize(v: usize) -> (r: Option<u64>)
    ensures
        r == (if v <= u64::MAX {
            Some(v as u64)
        } else {
            None
        }),
{
    num::FromPrimitive::from_usize(v)
}

/// `num::ToPrimitive::to_usize` for `u64`: the same number as a `usize`
/// where it is neither negative nor above `usize::MAX`, else `None`.
#[verifier::external_body]
pub(crate) fn u64_to_usize(v: &u64) -> (r: Option<usize>)
    ensures
        r == (if 0 <= *v <= usize::MAX {
            Some(*v as usize)
        } else {
            None
        }),
{
    num::ToPrimitive::to_usize(v)
}

/// `num::ToPrimitive::to_isize` for `u64`: the same number as an `isize`
/// where it lies between `isize::MIN` and `isize::MAX`, else `None`.
#[verifier::external_body]
pub(crate) fn u64_to_isize(v: &u64) -> (r: Option<isize>)
    ensures
        r == (if isize::MIN <= *v <= isize::MAX {
            Some(*v as isize)
        } else {
            None
        }),
{
    num::ToPrimitive::to_isize(v)
}

} // verus!
