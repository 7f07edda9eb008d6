use arrow_native::primitive::{
    Int16Type, Int32Type, Int64Type, Int8Type, UInt16Type, UInt32Type, UInt64Type, UInt8Type,
};
use arrow_native::{ArrowNativeType, ArrowPrimitiveType, DataType};

#[test]
fn byte_width_is_the_size_of_the_native_type() {
    assert_eq!(Int8Type::get_byte_width(), 1);
    assert_eq!(Int16Type::get_byte_width(), 2);
    assert_eq!(Int32Type::get_byte_width(), 4);
    assert_eq!(Int64Type::get_byte_width(), 8);
    assert_eq!(UInt8Type::get_byte_width(), 1);
    assert_eq!(UInt16Type::get_byte_width(), 2);
    assert_eq!(UInt32Type::get_byte_width(), 4);
    assert_eq!(UInt64Type::get_byte_width(), 8);
    assert_eq!(Int32Type::get_byte_width(), std::mem::size_of::<i32>());
    assert_eq!(UInt64Type::get_byte_width(), std::mem::size_of::<u64>());
}

#[test]
fn default_value_is_zero() {
    assert_eq!(Int8Type::default_value(), 0i8);
    assert_eq!(Int16Type::default_value(), 0i16);
    assert_eq!(Int32Type::default_value(), 0i32);
    assert_eq!(Int64Type::default_value(), 0i64);
    assert_eq!(UInt8Type::default_value(), 0u8);
    assert_eq!(UInt16Type::default_value(), 0u16);
    assert_eq!(UInt32Type::default_value(), 0u32);
    assert_eq!(UInt64Type::default_value(), 0u64);
}

#[test]
fn each_binding_names_its_kind() {
    assert_eq!(Int8Type::DATA_TYPE, DataType::Int8);
    assert_eq!(Int16Type::DATA_TYPE, DataType::Int16);
    assert_eq!(Int32Type::DATA_TYPE, DataType::Int32);
    assert_eq!(Int64Type::DATA_TYPE, DataType::Int64);
    assert_eq!(UInt8Type::DATA_TYPE, DataType::UInt8);
    assert_eq!(UInt16Type::DATA_TYPE, DataType::UInt16);
    assert_eq!(UInt32Type::DATA_TYPE, DataType::UInt32);
    assert_eq!(UInt64Type::DATA_TYPE, DataType::UInt64);
    assert_ne!(Int8Type::DATA_TYPE, DataType::UInt8);
    assert_ne!(DataType::Float32, DataType::Float64);
    assert_ne!(DataType::Float16, DataType::Int16);
}

#[test]
fn a_binding_of_the_caller_gets_width_and_default() {
    struct WideType;
    impl ArrowPrimitiveType for WideType {
        type Native = i128;
        const DATA_TYPE: DataType = DataType::Int64;
    }
    assert_eq!(WideType::get_byte_width(), 16);
    assert_eq!(WideType::default_value(), 0i128);
}

#[test]
fn binding_is_the_same_on_every_call() {
    fn twice<P: ArrowPrimitiveType>() -> bool
    where
        P::Native: PartialEq,
    {
        P::get_byte_width() == P::get_byte_width()
            && P::default_value() == P::default_value()
            && P::default_value().as_i128() == 0
            && P::get_byte_width() >= 1
            && P::get_byte_width() <= 16
    }
    assert!(twice::<Int8Type>());
    assert!(twice::<Int16Type>());
    assert!(twice::<Int32Type>());
    assert!(twice::<Int64Type>());
    assert!(twice::<UInt8Type>());
    assert!(twice::<UInt16Type>());
    assert!(twice::<UInt32Type>());
    assert!(twice::<UInt64Type>());
}
