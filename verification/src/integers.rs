//! The native integer types: each is sealed into the set and described by
//! its range.

use vstd::prelude::*;
use vstd::arithmetic::power::pow;
use crate::convert::{
    i128_from_usize, i128_to_isize, i128_to_usize, i16_from_usize, i16_to_isize, i16_to_usize,
    i32_from_usize, i32_to_isize, i32_to_usize, i64_from_usize, i64_to_isize, i64_to_usize,
    i8_from_usize, i8_to_isize, i8_to_usize, u16_from_usize, u16_to_isize, u16_to_usize,
    u32_from_usize, u32_to_isize, u32_to_usize, u64_from_usize, u64_to_isize, u64_to_usize,
    u8_from_usize, u8_to_isize, u8_to_usize,
};
use crate::native::ArrowNativeType;
use crate::private::Sealed;

verus! {

/// The powers of 256 that count the patterns of 1, 2, 4, 8 and 16 bytes.
pub proof fn lemma_byte_patterns()
    ensures
        pow(256, 1) == 0x100,
        pow(256, 2) == 0x1_0000,
        pow(256, 4) == 0x1_0000_0000,
        pow(256, 8) == 0x1_0000_0000_0000_0000,
        pow(256, 16) == 0x1_0000_0000_0000_0000_0000_0000_0000_0000,
{
    reveal_with_fuel(pow, 5);
    vstd::arithmetic::power::lemma_pow_adds(256, 4, 4);
    vstd::arithmetic::power::lemma_pow_adds(256, 8, 8);
    let four = pow(256, 4);
    let eight = pow(256, 8);
    assert(four * four == 0x1_0000_0000_0000_0000) by (nonlinear_arith)
        requires
            four == 0x1_0000_0000,
    ;
    assert(eight * eight == 0x1_0000_0000_0000_0000_0000_0000_0000_0000) by (nonlinear_arith)
        requires
            eight == 0x1_0000_0000_0000_0000,
    ;
}

impl Sealed for i8 {

}

impl ArrowNativeType for i8 {
    open spec fn min_int() -> int {
        i8::MIN as int
    }

    open spec fn max_int() -> int {
        i8::MAX as int
    }

    open spec fn byte_width() -> nat {
        1
    }

    open spec fn int_value(self) -> int {
        self as int
    }

    open spec fn of_int(i: int) -> i8 {
        i as i8
    }

    open spec fn wrap_int(i: int) -> int {
        i8::MIN + (i - i8::MIN) % 0x100int
    }

    open spec fn takes_i32() -> bool {
        false
    }

    open spec fn takes_i64() -> bool {
        false
    }

    open spec fn takes_i128() -> bool {
        false
    }

    proof fn lemma_model() {
        lemma_byte_patterns();
        broadcast use vstd::layout::layout_of_primitives;
        assert(vstd::layout::size_of::<u8>() == 1);
    }

    #[inline]
    fn from_usize(v: usize) -> (r: Option<i8>) {
        i8_from_usize(v)
    }

    #[inline]
    fn to_usize(&self) -> (r: Option<usize>) {
        i8_to_usize(self)
    }

    #[inline]
    fn to_isize(&self) -> (r: Option<isize>) {
        i8_to_isize(self)
    }

    #[inline]
    fn from_i32(_v: i32) -> (r: Option<i8>) {
        None
    }

    #[inline]
    fn from_i64(_v: i64) -> (r: Option<i8>) {
        None
    }

    #[inline]
    fn from_i128(_v: i128) -> (r: Option<i8>) {
        None
    }

    #[inline]
    fn as_i128(self) -> (r: i128) {
        self as i128
    }
}

impl Sealed for i16 {

}

impl ArrowNativeType for i16 {
    open spec fn min_int() -> int {
        i16::MIN as int
    }

    open spec fn max_int() -> int {
        i16::MAX as int
    }

    open spec fn byte_width() -> nat {
        2
    }

    open spec fn int_value(self) -> int {
        self as int
    }

    open spec fn of_int(i: int) -> i16 {
        i as i16
    }

    open spec fn wrap_int(i: int) -> int {
        i16::MIN + (i - i16::MIN) % 0x1_0000int
    }

    open spec fn takes_i32() -> bool {
        false
    }

    open spec fn takes_i64() -> bool {
        false
    }

    open spec fn takes_i128() -> bool {
        false
    }

    proof fn lemma_model() {
        lemma_byte_patterns();
        broadcast use vstd::layout::layout_of_primitives;
        assert(vstd::layout::size_of::<u8>() == 1);
    }

    #[inline]
    fn from_usize(v: usize) -> (r: Option<i16>) {
        i16_from_usize(v)
    }

    #[inline]
    fn to_usize(&self) -> (r: Option<usize>) {
        i16_to_usize(self)
    }

    #[inline]
    fn to_isize(&self) -> (r: Option<isize>) {
        i16_to_isize(self)
    }

    #[inline]
    fn from_i32(_v: i32) -> (r: Option<i16>) {
        None
    }

    #[inline]
    fn from_i64(_v: i64) -> (r: Option<i16>) {
        None
    }

    #[inline]
    fn from_i128(_v: i128) -> (r: Option<i16>) {
        None
    }

    #[inline]
    fn as_i128(self) -> (r: i128) {
        self as i128
    }
}

impl Sealed for i32 {

}

impl ArrowNativeType for i32 {
    open spec fn min_int() -> int {
        i32::MIN as int
    }

    open spec fn max_int() -> int {
        i32::MAX as int
    }

    open spec fn byte_width() -> nat {
        4
    }

    open spec fn int_value(self) -> int {
        self as int
    }

    open spec fn of_int(i: int) -> i32 {
        i as i32
    }

    open spec fn wrap_int(i: int) -> int {
        i32::MIN + (i - i32::MIN) % 0x1_0000_0000int
    }

    open spec fn takes_i32() -> bool {
        true
    }

    open spec fn takes_i64() -> bool {
        false
    }

    open spec fn takes_i128() -> bool {
        false
    }

    proof fn lemma_model() {
        lemma_byte_patterns();
        broadcast use vstd::layout::layout_of_primitives;
        assert(vstd::layout::size_of::<u8>() == 1);
    }

    #[inline]
    fn from_usize(v: usize) -> (r: Option<i32>) {
        i32_from_usize(v)
    }

    #[inline]
    fn to_usize(&self) -> (r: Option<usize>) {
        i32_to_usize(self)
    }

    #[inline]
    fn to_isize(&self) -> (r: Option<isize>) {
        i32_to_isize(self)
    }

    #[inline]
    fn from_i32(v: i32) -> (r: Option<i32>) {
        Some(v)
    }

    #[inline]
    fn from_i64(_v: i64) -> (r: Option<i32>) {
        None
    }

    #[inline]
    fn from_i128(_v: i128) -> (r: Option<i32>) {
        None
    }

    #[inline]
    fn as_i128(self) -> (r: i128) {
        self as i128
    }
}

impl Sealed for i64 {

}

impl ArrowNativeType for i64 {
    open spec fn min_int() -> int {
        i64::MIN as int
    }

    open spec fn max_int() -> int {
        i64::MAX as int
    }

    open spec fn byte_width() -> nat {
        8
    }

    open spec fn int_value(self) -> int {
        self as int
    }

    open spec fn of_int(i: int) -> i64 {
        i as i64
    }

    open spec fn wrap_int(i: int) -> int {
        i64::MIN + (i - i64::MIN) % 0x1_0000_0000_0000_0000int
    }

    open spec fn takes_i32() -> bool {
        false
    }

    open spec fn takes_i64() -> bool {
        true
    }

    open spec fn takes_i128() -> bool {
        false
    }

    proof fn lemma_model() {
        lemma_byte_patterns();
        broadcast use vstd::layout::layout_of_primitives;
        assert(vstd::layout::size_of::<u8>() == 1);
    }

    #[inline]
    fn from_usize(v: usize) -> (r: Option<i64>) {
        i64_from_usize(v)
    }

    #[inline]
    fn to_usize(&self) -> (r: Option<usize>) {
        i64_to_usize(self)
    }

    #[inline]
    fn to_isize(&self) -> (r: Option<isize>) {
        i64_to_isize(self)
    }

    #[inline]
    fn from_i32(_v: i32) -> (r: Option<i64>) {
        None
    }

    #[inline]
    fn from_i64(v: i64) -> (r: Option<i64>) {
        Some(v)
    }

    #[inline]
    fn from_i128(_v: i128) -> (r: Option<i64>) {
        None
    }

    #[inline]
    fn as_i128(self) -> (r: i128) {
        self as i128
    }
}

impl Sealed for i128 {

}

impl ArrowNativeType for i128 {
    open spec fn min_int() -> int {
        i128::MIN as int
    }

    open spec fn max_int() -> int {
        i128::MAX as int
    }

    open spec fn byte_width() -> nat {
        16
    }

    open spec fn int_value(self) -> int {
        self as int
    }

    open spec fn of_int(i: int) -> i128 {
        i as i128
    }

    open spec fn wrap_int(i: int) -> int {
        i128::MIN + (i - i128::MIN) % 0x1_0000_0000_0000_0000_0000_0000_0000_0000int
    }

    open spec fn takes_i32() -> bool {
        false
    }

    open spec fn takes_i64() -> bool {
        false
    }

    open spec fn takes_i128() -> bool {
        true
    }

    proof fn lemma_model() {
        lemma_byte_patterns();
        broadcast use vstd::layout::layout_of_primitives;
        assert(vstd::layout::size_of::<u8>() == 1);
    }

    #[inline]
    fn from_usize(v: usize) -> (r: Option<i128>) {
        i128_from_usize(v)
    }

    #[inline]
    fn to_usize(&self) -> (r: Option<usize>) {
        i128_to_usize(self)
    }

    #[inline]
    fn to_isize(&self) -> (r: Option<isize>) {
        i128_to_isize(self)
    }

    #[inline]
    fn from_i32(_v: i32) -> (r: Option<i128>) {
        None
    }

    #[inline]
    fn from_i64(_v: i64) -> (r: Option<i128>) {
        None
    }

    #[inline]
    fn from_i128(v: i128) -> (r: Option<i128>) {
        Some(v)
    }

    #[inline]
    fn as_i128(self) -> (r: i128) {
        self
    }
}

impl Sealed for u8 {

}

impl ArrowNativeType for u8 {
    open spec fn min_int() -> int {
        u8::MIN as int
    }

    open spec fn max_int() -> int {
        u8::MAX as int
    }

    open spec fn byte_width() -> nat {
        1
    }

    open spec fn int_value(self) -> int {
        self as int
    }

    open spec fn of_int(i: int) -> u8 {
        i as u8
    }

    open spec fn wrap_int(i: int) -> int {
        i % 0x100int
    }

    open spec fn takes_i32() -> bool {
        false
    }

    open spec fn takes_i64() -> bool {
        false
    }

    open spec fn takes_i128() -> bool {
        false
    }

    proof fn lemma_model() {
        lemma_byte_patterns();
        broadcast use vstd::layout::layout_of_primitives;
        assert(vstd::layout::size_of::<u8>() == 1);
    }

    #[inline]
    fn from_usize(v: usize) -> (r: Option<u8>) {
        u8_from_usize(v)
    }

    #[inline]
    fn to_usize(&self) -> (r: Option<usize>) {
        u8_to_usize(self)
    }

    #[inline]
    fn to_isize(&self) -> (r: Option<isize>) {
        u8_to_isize(self)
    }

    #[inline]
    fn from_i32(_v: i32) -> (r: Option<u8>) {
        None
    }

    #[inline]
    fn from_i64(_v: i64) -> (r: Option<u8>) {
        None
    }

    #[inline]
    fn from_i128(_v: i128) -> (r: Option<u8>) {
        None
    }

    #[inline]
    fn as_i128(self) -> (r: i128) {
        self as i128
    }
}

impl Sealed for u16 {

}

impl ArrowNativeType for u16 {
    open spec fn min_int() -> int {
        u16::MIN as int
    }

    open spec fn max_int() -> int {
        u16::MAX as int
    }

    open spec fn byte_width() -> nat {
        2
    }

    open spec fn int_value(self) -> int {
        self as int
    }

    open spec fn of_int(i: int) -> u16 {
        i as u16
    }

    open spec fn wrap_int(i: int) -> int {
        i % 0x1_0000int
    }

    open spec fn takes_i32() -> bool {
        false
    }

    open spec fn takes_i64() -> bool {
        false
    }

    open spec fn takes_i128() -> bool {
        false
    }

    proof fn lemma_model() {
        lemma_byte_patterns();
        broadcast use vstd::layout::layout_of_primitives;
        assert(vstd::layout::size_of::<u8>() == 1);
    }

    #[inline]
    fn from_usize(v: usize) -> (r: Option<u16>) {
        u16_from_usize(v)
    }

    #[inline]
    fn to_usize(&self) -> (r: Option<usize>) {
        u16_to_usize(self)
    }

    #[inline]
    fn to_isize(&self) -> (r: Option<isize>) {
        u16_to_isize(self)
    }

    #[inline]
    fn from_i32(_v: i32) -> (r: Option<u16>) {
        None
    }

    #[inline]
    fn from_i64(_v: i64) -> (r: Option<u16>) {
        None
    }

    #[inline]
    fn from_i128(_v: i128) -> (r: Option<u16>) {
        None
    }

    #[inline]
    fn as_i128(self) -> (r: i128) {
        self as i128
    }
}

impl Sealed for u32 {

}

impl ArrowNativeType for u32 {
    open spec fn min_int() -> int {
        u32::MIN as int
    }

    open spec fn max_int() -> int {
        u32::MAX as int
    }

    open spec fn byte_width() -> nat {
        4
    }

    open spec fn int_value(self) -> int {
        self as int
    }

    open spec fn of_int(i: int) -> u32 {
        i as u32
    }

    open spec fn wrap_int(i: int) -> int {
        i % 0x1_0000_0000int
    }

    open spec fn takes_i32() -> bool {
        false
    }

    open spec fn takes_i64() -> bool {
        false
    }

    open spec fn takes_i128() -> bool {
        false
    }

    proof fn lemma_model() {
        lemma_byte_patterns();
        broadcast use vstd::layout::layout_of_primitives;
        assert(vstd::layout::size_of::<u8>() == 1);
    }

    #[inline]
    fn from_usize(v: usize) -> (r: Option<u32>) {
        u32_from_usize(v)
    }

    #[inline]
    fn to_usize(&self) -> (r: Option<usize>) {
        u32_to_usize(self)
    }

    #[inline]
    fn to_isize(&self) -> (r: Option<isize>) {
        u32_to_isize(self)
    }

    #[inline]
    fn from_i32(_v: i32) -> (r: Option<u32>) {
        None
    }

    #[inline]
    fn from_i64(_v: i64) -> (r: Option<u32>) {
        None
    }

    #[inline]
    fn from_i128(_v: i128) -> (r: Option<u32>) {
        None
    }

    #[inline]
    fn as_i128(self) -> (r: i128) {
        self as i128
    }
}

impl Sealed for u64 {

}

impl ArrowNativeType for u64 {
    open spec fn min_int() -> int {
        u64::MIN as int
    }

    open spec fn max_int() -> int {
        u64::MAX as int
    }

    open spec fn byte_width() -> nat {
        8
    }

    open spec fn int_value(self) -> int {
        self as int
    }

    open spec fn of_int(i: int) -> u64 {
        i as u64
    }

    open spec fn wrap_int(i: int) -> int {
        i % 0x1_0000_0000_0000_0000int
    }

    open spec fn takes_i32() -> bool {
        false
    }

    open spec fn takes_i64() -> bool {
        false
    }

    open spec fn takes_i128() -> bool {
        false
    }

    proof fn lemma_model() {
        lemma_byte_patterns();
        broadcast use vstd::layout::layout_of_primitives;
        assert(vstd::layout::size_of::<u8>() == 1);
    }

    #[inline]
    fn from_usize(v: usize) -> (r: Option<u64>) {
        u64_from_usize(v)
    }

    #[inline]
    fn to_usize(&self) -> (r: Option<usize>) {
        u64_to_usize(self)
    }

    #[inline]
    fn to_isize(&self) -> (r: Option<isize>) {
        u64_to_isize(self)
    }

    #[inline]
    fn from_i32(_v: i32) -> (r: Option<u64>) {
        None
    }

    #[inline]
    fn from_i64(_v: i64) -> (r: Option<u64>) {
        None
    }

    #[inline]
    fn from_i128(_v: i128) -> (r: Option<u64>) {
        None
    }

    #[inline]
    fn as_i128(self) -> (r: i128) {
        self as i128
    }
}

} // verus!
