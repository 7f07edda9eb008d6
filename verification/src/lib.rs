//! Native scalar types of a columnar in-memory format.
//!
//! A native type is a fixed-width scalar whose values can be copied to and
//! from raw buffers byte for byte. The module [`native`] names the types and
//! their conversions, [`native_op`] adds overflow-aware arithmetic,
//! [`primitive`] binds each logical scalar kind to its native type, and
//! [`byte_slice`] gives the bytes of a value or of a run of values.
//!
//! Every contract is stated over the integer that a native value stands for
//! (see [`model`]).

pub mod byte_slice;
mod convert;
pub mod datatype;
pub mod encoding;
pub mod integer_ops;
pub mod integers;
pub mod model;
pub mod native;
pub mod native_op;
pub mod primitive;
mod private;

pub use byte_slice::ToByteSlice;
pub use datatype::DataType;
pub use native::ArrowNativeType;
pub use native_op::ArrowNativeTypeOp;
pub use primitive::ArrowPrimitiveType;
