//! The arithmetic of the native integer types of up to 64 bits, made of the
//! checked and wrapping operations of the standard library.

use vstd::prelude::*;
use crate::model::{lemma_truncated_quotient_bounds, truncated_quotient};
use crate::native_op::ArrowNativeTypeOp;

verus! {

/// `i8::wrapping_div` of the standard library: the quotient rounded toward
/// zero, but `i8::MIN` for `i8::MIN` divided by -1. It panics on a zero
/// divisor, which the precondition leaves out.
pub assume_specification[ <i8>::wrapping_div ](x: i8, y: i8) -> (r: i8)
    requires
        y != 0,
    ensures
        r == (if x == i8::MIN && y == -1 {
            i8::MIN
        } else {
            truncated_quotient(x as int, y as int) as i8
        }),
;

/// `i16::wrapping_div` of the standard library: the quotient rounded toward
/// zero, but `i16::MIN` for `i16::MIN` divided by -1. It panics on a zero
/// divisor, which the precondition leaves out.
pub assume_specification[ <i16>::wrapping_div ](x: i16, y: i16) -> (r: i16)
    requires
        y != 0,
    ensures
        r == (if x == i16::MIN && y == -1 {
            i16::MIN
        } else {
            truncated_quotient(x as int, y as int) as i16
        }),
;

/// `i32::wrapping_div` of the standard library: the quotient rounded toward
/// zero, but `i32::MIN` for `i32::MIN` divided by -1. It panics on a zero
/// divisor, which the precondition leaves out.
pub assume_specification[ <i32>::wrapping_div ](x: i32, y: i32) -> (r: i32)
    requires
        y != 0,
    ensures
        r == (if x == i32::MIN && y == -1 {
            i32::MIN
        } else {
            truncated_quotient(x as int, y as int) as i32
        }),
;

/// `i64::wrapping_div` of the standard library: the quotient rounded toward
/// zero, but `i64::MIN` for `i64::MIN` divided by -1. It panics on a zero
/// divisor, which the precondition leaves out.
pub assume_specification[ <i64>::wrapping_div ](x: i64, y: i64) -> (r: i64)
    requires
        y != 0,
    ensures
        r == (if x == i64::MIN && y == -1 {
            i64::MIN
        } else {
            truncated_quotient(x as int, y as int) as i64
        }),
;

/// `u8::wrapping_div` of the standard library: the quotient rounded down.
/// It panics on a zero divisor, which the precondition leaves out.
pub assume_specification[ <u8>::wrapping_div ](x: u8, y: u8) -> (r: u8)
    requires
        y != 0,
    ensures
        r == x / y,
;

/// `u16::wrapping_div` of the standard library: the quotient rounded down.
/// It panics on a zero divisor, which the precondition leaves out.
pub assume_specification[ <u16>::wrapping_div ](x: u16, y: u16) -> (r: u16)
    requires
        y != 0,
    ensures
        r == x / y,
;

/// `u32::wrapping_div` of the standard library: the quotient rounded down.
/// It panics on a zero divisor, which the precondition leaves out.
pub assume_specification[ <u32>::wrapping_div ](x: u32, y: u32) -> (r: u32)
    requires
        y != 0,
    ensures
        r == x / y,
;

/// `u64::wrapping_div` of the standard library: the quotient rounded down.
/// It panics on a zero divisor, which the precondition leaves out.
pub assume_specification[ <u64>::wrapping_div ](x: u64, y: u64) -> (r: u64)
    requires
        y != 0,
    ensures
        r == x / y,
;

impl ArrowNativeTypeOp for i8 {
    fn add_checked(self, rhs: i8) -> (r: Option<i8>) {
        self.checked_add(rhs)
    }

    fn add_wrapping(self, rhs: i8) -> (r: i8) {
        self.wrapping_add(rhs)
    }

    fn sub_checked(self, rhs: i8) -> (r: Option<i8>) {
        self.checked_sub(rhs)
    }

    fn sub_wrapping(self, rhs: i8) -> (r: i8) {
        self.wrapping_sub(rhs)
    }

    fn mul_checked(self, rhs: i8) -> (r: Option<i8>) {
        self.checked_mul(rhs)
    }

    fn mul_wrapping(self, rhs: i8) -> (r: i8) {
        self.wrapping_mul(rhs)
    }

    fn div_checked(self, rhs: i8) -> (r: Option<i8>) {
        proof {
            if rhs != 0 {
                lemma_truncated_quotient_bounds(self as int, rhs as int);
            }
        }
        self.checked_div(rhs)
    }

    fn div_wrapping(self, rhs: i8) -> (r: i8) {
        proof {
            lemma_truncated_quotient_bounds(self as int, rhs as int);
        }
        self.wrapping_div(rhs)
    }
}

impl ArrowNativeTypeOp for i16 {
    fn add_checked(self, rhs: i16) -> (r: Option<i16>) {
        self.checked_add(rhs)
    }

    fn add_wrapping(self, rhs: i16) -> (r: i16) {
        self.wrapping_add(rhs)
    }

    fn sub_checked(self, rhs: i16) -> (r: Option<i16>) {
        self.checked_sub(rhs)
    }

    fn sub_wrapping(self, rhs: i16) -> (r: i16) {
        self.wrapping_sub(rhs)
    }

    fn mul_checked(self, rhs: i16) -> (r: Option<i16>) {
        self.checked_mul(rhs)
    }

    fn mul_wrapping(self, rhs: i16) -> (r: i16) {
        self.wrapping_mul(rhs)
    }

    fn div_checked(self, rhs: i16) -> (r: Option<i16>) {
        proof {
            if rhs != 0 {
                lemma_truncated_quotient_bounds(self as int, rhs as int);
            }
        }
        self.checked_div(rhs)
    }

    fn div_wrapping(self, rhs: i16) -> (r: i16) {
        proof {
            lemma_truncated_quotient_bounds(self as int, rhs as int);
        }
        self.wrapping_div(rhs)
    }
}

impl ArrowNativeTypeOp for i32 {
    fn add_checked(self, rhs: i32) -> (r: Option<i32>) {
        self.checked_add(rhs)
    }

    fn add_wrapping(self, rhs: i32) -> (r: i32) {
        self.wrapping_add(rhs)
    }

    fn sub_checked(self, rhs: i32) -> (r: Option<i32>) {
        self.checked_sub(rhs)
    }

    fn sub_wrapping(self, rhs: i32) -> (r: i32) {
        self.wrapping_sub(rhs)
    }

    fn mul_checked(self, rhs: i32) -> (r: Option<i32>) {
        self.checked_mul(rhs)
    }

    fn mul_wrapping(self, rhs: i32) -> (r: i32) {
        self.wrapping_mul(rhs)
    }

    fn div_checked(self, rhs: i32) -> (r: Option<i32>) {
        proof {
            if rhs != 0 {
                lemma_truncated_quotient_bounds(self as int, rhs as int);
            }
        }
        self.checked_div(rhs)
    }

    fn div_wrapping(self, rhs: i32) -> (r: i32) {
        proof {
            lemma_truncated_quotient_bounds(self as int, rhs as int);
        }
        self.wrapping_div(rhs)
    }
}

impl ArrowNativeTypeOp for i64 {
    fn add_checked(self, rhs: i64) -> (r: Option<i64>) {
        self.checked_add(rhs)
    }

    fn add_wrapping(self, rhs: i64) -> (r: i64) {
        self.wrapping_add(rhs)
    }

    fn sub_checked(self, rhs: i64) -> (r: Option<i64>) {
        self.checked_sub(rhs)
    }

    fn sub_wrapping(self, rhs: i64) -> (r: i64) {
        self.wrapping_sub(rhs)
    }

    fn mul_checked(self, rhs: i64) -> (r: Option<i64>) {
        self.checked_mul(rhs)
    }

    fn mul_wrapping(self, rhs: i64) -> (r: i64) {
        self.wrapping_mul(rhs)
    }

    fn div_checked(self, rhs: i64) -> (r: Option<i64>) {
        proof {
            if rhs != 0 {
                lemma_truncated_quotient_bounds(self as int, rhs as int);
            }
        }
        self.checked_div(rhs)
    }

    fn div_wrapping(self, rhs: i64) -> (r: i64) {
        proof {
            lemma_truncated_quotient_bounds(self as int, rhs as int);
        }
        self.wrapping_div(rhs)
    }
}

impl ArrowNativeTypeOp for u8 {
    fn add_checked(self, rhs: u8) -> (r: Option<u8>) {
        self.checked_add(rhs)
    }

    fn add_wrapping(self, rhs: u8) -> (r: u8) {
        self.wrapping_add(rhs)
    }

    fn sub_checked(self, rhs: u8) -> (r: Option<u8>) {
        self.checked_sub(rhs)
    }

    fn sub_wrapping(self, rhs: u8) -> (r: u8) {
        self.wrapping_sub(rhs)
    }

    fn mul_checked(self, rhs: u8) -> (r: Option<u8>) {
        self.checked_mul(rhs)
    }

    fn mul_wrapping(self, rhs: u8) -> (r: u8) {
        self.wrapping_mul(rhs)
    }

    fn div_checked(self, rhs: u8) -> (r: Option<u8>) {
        proof {
            if rhs != 0 {
                lemma_truncated_quotient_bounds(self as int, rhs as int);
            }
        }
        self.checked_div(rhs)
    }

    fn div_wrapping(self, rhs: u8) -> (r: u8) {
        proof {
            lemma_truncated_quotient_bounds(self as int, rhs as int);
        }
        self.wrapping_div(rhs)
    }
}

impl ArrowNativeTypeOp for u16 {
    fn add_checked(self, rhs: u16) -> (r: Option<u16>) {
        self.checked_add(rhs)
    }

    fn add_wrapping(self, rhs: u16) -> (r: u16) {
        self.wrapping_add(rhs)
    }

    fn sub_checked(self, rhs: u16) -> (r: Option<u16>) {
        self.checked_sub(rhs)
    }

    fn sub_wrapping(self, rhs: u16) -> (r: u16) {
        self.wrapping_sub(rhs)
    }

    fn mul_checked(self, rhs: u16) -> (r: Option<u16>) {
        self.checked_mul(rhs)
    }

    fn mul_wrapping(self, rhs: u16) -> (r: u16) {
        self.wrapping_mul(rhs)
    }

    fn div_checked(self, rhs: u16) -> (r: Option<u16>) {
        proof {
            if rhs != 0 {
                lemma_truncated_quotient_bounds(self as int, rhs as int);
            }
        }
        self.checked_div(rhs)
    }

    fn div_wrapping(self, rhs: u16) -> (r: u16) {
        proof {
            lemma_truncated_quotient_bounds(self as int, rhs as int);
        }
        self.wrapping_div(rhs)
    }
}

impl ArrowNativeTypeOp for u32 {
    fn add_checked(self, rhs: u32) -> (r: Option<u32>) {
        self.checked_add(rhs)
    }

    fn add_wrapping(self, rhs: u32) -> (r: u32) {
        self.wrapping_add(rhs)
    }

    fn sub_checked(self, rhs: u32) -> (r: Option<u32>) {
        self.checked_sub(rhs)
    }

    fn sub_wrapping(self, rhs: u32) -> (r: u32) {
        self.wrapping_sub(rhs)
    }

    fn mul_checked(self, rhs: u32) -> (r: Option<u32>) {
        self.checked_mul(rhs)
    }

    fn mul_wrapping(self, rhs: u32) -> (r: u32) {
        self.wrapping_mul(rhs)
    }

    fn div_checked(self, rhs: u32) -> (r: Option<u32>) {
        proof {
            if rhs != 0 {
                lemma_truncated_quotient_bounds(self as int, rhs as int);
            }
        }
        self.checked_div(rhs)
    }

    fn div_wrapping(self, rhs: u32) -> (r: u32) {
        proof {
            lemma_truncated_quotient_bounds(self as int, rhs as int);
        }
        self.wrapping_div(rhs)
    }
}

impl ArrowNativeTypeOp for u64 {
    fn add_checked(self, rhs: u64) -> (r: Option<u64>) {
        self.checked_add(rhs)
    }

    fn add_wrapping(self, rhs: u64) -> (r: u64) {
        self.wrapping_add(rhs)
    }

    fn sub_checked(self, rhs: u64) -> (r: Option<u64>) {
        self.checked_sub(rhs)
    }

    fn sub_wrapping(self, rhs: u64) -> (r: u64) {
        self.wrapping_sub(rhs)
    }

    fn mul_checked(self, rhs: u64) -> (r: Option<u64>) {
        self.checked_mul(rhs)
    }

    fn mul_wrapping(self, rhs: u64) -> (r: u64) {
        self.wrapping_mul(rhs)
    }

    fn div_checked(self, rhs: u64) -> (r: Option<u64>) {
        proof {
            if rhs != 0 {
                lemma_truncated_quotient_bounds(self as int, rhs as int);
            }
        }
        self.checked_div(rhs)
    }

    fn div_wrapping(self, rhs: u64) -> (r: u64) {
        proof {
            lemma_truncated_quotient_bounds(self as int, rhs as int);
        }
        self.wrapping_div(rhs)
    }
}

} // verus!
