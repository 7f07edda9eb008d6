//! The binding of each logical scalar kind to the native type that holds its
//! values.

use vstd::prelude::*;
use crate::datatype::DataType;
use crate::native::ArrowNativeType;

verus! {

/// A logical scalar kind together with the native type of its values. The
/// binding is fixed by the implementing type; nothing is decided at run time.
pub trait ArrowPrimitiveType: 'static {
    /// The native type that holds a value of this kind.
    type Native: ArrowNativeType;

    /// The logical kind.
    const DATA_TYPE: DataType;

    /// The number of bytes of a value of this kind: the size of the native
    /// type in memory, which is its `byte_width()`, from 1 to 16.
    fn get_byte_width() -> (r: usize)
        ensures
            r == vstd::layout::size_of::<Self::Native>(),
            r == Self::Native::byte_width(),
            1 <= r <= 16,
    {
        proof {
            Self::Native::lemma_model();
        }
        std::mem::size_of::<Self::Native>()
    }

    /// The default value of this kind: the value of the native type that
    /// stands for zero.
    fn default_value() -> (r: Self::Native)
        ensures
            r == Self::Native::of_int(0),
            r.int_value() == 0,
    {
        let r: Self::Native = Default::default();
        proof {
            Self::Native::lemma_model();
        }
        r
    }
}

/// Signed 8-bit integers, held as `i8`.
#[derive(Debug)]
pub struct Int8Type;

impl ArrowPrimitiveType for Int8Type {
    type Native = i8;

    const DATA_TYPE: DataType = DataType::Int8;
}

/// Signed 16-bit integers, held as `i16`.
#[derive(Debug)]
pub struct Int16Type;

impl ArrowPrimitiveType for Int16Type {
    type Native = i16;

    const DATA_TYPE: DataType = DataType::Int16;
}

/// Signed 32-bit integers, held as `i32`.
#[derive(Debug)]
pub struct Int32Type;

impl ArrowPrimitiveType for Int32Type {
    type Native = i32;

    const DATA_TYPE: DataType = DataType::Int32;
}

/// Signed 64-bit integers, held as `i64`.
#[derive(Debug)]
pub struct Int64Type;

impl ArrowPrimitiveType for Int64Type {
    type Native = i64;

    const DATA_TYPE: DataType = DataType::Int64;
}

/// Unsigned 8-bit integers, held as `u8`.
#[derive(Debug)]
pub struct UInt8Type;

impl ArrowPrimitiveType for UInt8Type {
    type Native = u8;

    const DATA_TYPE: DataType = DataType::UInt8;
}

/// Unsigned 16-bit integers, held as `u16`.
#[derive(Debug)]
pub struct UInt16Type;

impl ArrowPrimitiveType for UInt16Type {
    type Native = u16;

    const DATA_TYPE: DataType = DataType::UInt16;
}

/// Unsigned 32-bit integers, held as `u32`.
#[derive(Debug)]
pub struct UInt32Type;

impl ArrowPrimitiveType for UInt32Type {
    type Native = u32;

    const DATA_TYPE: DataType = DataType::UInt32;
}

/// Unsigned 64-bit integers, held as `u64`.
#[derive(Debug)]
pub struct UInt64Type;

impl ArrowPrimitiveType for UInt64Type {
    type Native = u64;

    const DATA_TYPE: DataType = DataType::UInt64;
}

} // verus!
