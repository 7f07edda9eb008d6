use arrow_native::ArrowNativeType;

#[test]
fn from_usize_at_the_boundary_of_i8() {
    assert_eq!(<i8 as ArrowNativeType>::from_usize(127), Some(127i8));
    assert_eq!(<i8 as ArrowNativeType>::from_usize(128), None);
    assert_eq!(<i8 as ArrowNativeType>::from_usize(0), Some(0i8));
}

#[test]
fn from_usize_of_each_signed_type() {
    assert_eq!(<i16 as ArrowNativeType>::from_usize(32767), Some(32767i16));
    assert_eq!(<i16 as ArrowNativeType>::from_usize(32768), None);
    assert_eq!(<i32 as ArrowNativeType>::from_usize(2147483647), Some(i32::MAX));
    assert_eq!(<i32 as ArrowNativeType>::from_usize(2147483648), None);
    assert_eq!(<i64 as ArrowNativeType>::from_usize(1 << 40), Some(1i64 << 40));
    assert_eq!(<i64 as ArrowNativeType>::from_usize(usize::MAX), None);
    assert_eq!(<i128 as ArrowNativeType>::from_usize(usize::MAX), Some(usize::MAX as i128));
    assert_eq!(<i128 as ArrowNativeType>::from_usize(7), Some(7i128));
}

#[test]
fn from_usize_of_each_unsigned_type() {
    assert_eq!(<u8 as ArrowNativeType>::from_usize(255), Some(255u8));
    assert_eq!(<u8 as ArrowNativeType>::from_usize(256), None);
    assert_eq!(<u16 as ArrowNativeType>::from_usize(65535), Some(65535u16));
    assert_eq!(<u16 as ArrowNativeType>::from_usize(65536), None);
    assert_eq!(<u32 as ArrowNativeType>::from_usize(4294967295), Some(u32::MAX));
    assert_eq!(<u32 as ArrowNativeType>::from_usize(4294967296), None);
    assert_eq!(<u64 as ArrowNativeType>::from_usize(usize::MAX), Some(usize::MAX as u64));
    assert_eq!(<u64 as ArrowNativeType>::from_usize(9), Some(9u64));
}

#[test]
fn to_usize_of_each_signed_type() {
    assert_eq!(ArrowNativeType::to_usize(&5i8), Some(5usize));
    assert_eq!(ArrowNativeType::to_usize(&-1i8), None);
    assert_eq!(ArrowNativeType::to_usize(&i8::MIN), None);
    assert_eq!(ArrowNativeType::to_usize(&300i16), Some(300usize));
    assert_eq!(ArrowNativeType::to_usize(&-300i16), None);
    assert_eq!(ArrowNativeType::to_usize(&i32::MAX), Some(2147483647usize));
    assert_eq!(ArrowNativeType::to_usize(&-1i32), None);
    assert_eq!(ArrowNativeType::to_usize(&i64::MAX), Some(i64::MAX as usize));
    assert_eq!(ArrowNativeType::to_usize(&i64::MIN), None);
    assert_eq!(ArrowNativeType::to_usize(&42i128), Some(42usize));
    assert_eq!(ArrowNativeType::to_usize(&-42i128), None);
    assert_eq!(ArrowNativeType::to_usize(&i128::MAX), None);
    assert_eq!(ArrowNativeType::to_usize(&(usize::MAX as i128)), Some(usize::MAX));
    assert_eq!(ArrowNativeType::to_usize(&(usize::MAX as i128 + 1)), None);
}

#[test]
fn to_usize_of_each_unsigned_type() {
    assert_eq!(ArrowNativeType::to_usize(&255u8), Some(255usize));
    assert_eq!(ArrowNativeType::to_usize(&65535u16), Some(65535usize));
    assert_eq!(ArrowNativeType::to_usize(&u32::MAX), Some(4294967295usize));
    assert_eq!(ArrowNativeType::to_usize(&u64::MAX), Some(usize::MAX));
    assert_eq!(ArrowNativeType::to_usize(&0u64), Some(0usize));
}

#[test]
fn to_isize_of_u64_above_the_greatest_isize() {
    assert_eq!(ArrowNativeType::to_isize(&u64::MAX), None);
    assert_eq!(ArrowNativeType::to_isize(&(isize::MAX as u64 + 1)), None);
    assert_eq!(ArrowNativeType::to_isize(&(isize::MAX as u64)), Some(isize::MAX));
    assert_eq!(ArrowNativeType::to_isize(&12u64), Some(12isize));
}

#[test]
fn to_isize_of_each_type() {
    assert_eq!(ArrowNativeType::to_isize(&-128i8), Some(-128isize));
    assert_eq!(ArrowNativeType::to_isize(&127i8), Some(127isize));
    assert_eq!(ArrowNativeType::to_isize(&-32768i16), Some(-32768isize));
    assert_eq!(ArrowNativeType::to_isize(&i32::MIN), Some(-2147483648isize));
    assert_eq!(ArrowNativeType::to_isize(&i64::MIN), Some(isize::MIN));
    assert_eq!(ArrowNativeType::to_isize(&i64::MAX), Some(isize::MAX));
    assert_eq!(ArrowNativeType::to_isize(&i128::MIN), None);
    assert_eq!(ArrowNativeType::to_isize(&i128::MAX), None);
    assert_eq!(ArrowNativeType::to_isize(&-9i128), Some(-9isize));
    assert_eq!(ArrowNativeType::to_isize(&(isize::MAX as i128 + 1)), None);
    assert_eq!(ArrowNativeType::to_isize(&(isize::MIN as i128 - 1)), None);
    assert_eq!(ArrowNativeType::to_isize(&200u8), Some(200isize));
    assert_eq!(ArrowNativeType::to_isize(&60000u16), Some(60000isize));
    assert_eq!(ArrowNativeType::to_isize(&u32::MAX), Some(4294967295isize));
}

#[test]
fn from_i32_converts_for_i32_alone() {
    assert_eq!(<i32 as ArrowNativeType>::from_i32(-5), Some(-5i32));
    assert_eq!(<i32 as ArrowNativeType>::from_i32(i32::MIN), Some(i32::MIN));
    assert_eq!(<i32 as ArrowNativeType>::from_i32(i32::MAX), Some(i32::MAX));
    assert_eq!(<i8 as ArrowNativeType>::from_i32(5), None);
    assert_eq!(<i16 as ArrowNativeType>::from_i32(5), None);
    assert_eq!(<i64 as ArrowNativeType>::from_i32(5), None);
    assert_eq!(<i128 as ArrowNativeType>::from_i32(5), None);
    assert_eq!(<u8 as ArrowNativeType>::from_i32(5), None);
    assert_eq!(<u16 as ArrowNativeType>::from_i32(5), None);
    assert_eq!(<u32 as ArrowNativeType>::from_i32(5), None);
    assert_eq!(<u64 as ArrowNativeType>::from_i32(5), None);
}

#[test]
fn from_i64_converts_for_i64_alone() {
    assert_eq!(<i64 as ArrowNativeType>::from_i64(-5), Some(-5i64));
    assert_eq!(<i64 as ArrowNativeType>::from_i64(i64::MIN), Some(i64::MIN));
    assert_eq!(<i64 as ArrowNativeType>::from_i64(i64::MAX), Some(i64::MAX));
    assert_eq!(<i8 as ArrowNativeType>::from_i64(5), None);
    assert_eq!(<i16 as ArrowNativeType>::from_i64(5), None);
    assert_eq!(<i32 as ArrowNativeType>::from_i64(5), None);
    assert_eq!(<i128 as ArrowNativeType>::from_i64(5), None);
    assert_eq!(<u8 as ArrowNativeType>::from_i64(5), None);
    assert_eq!(<u16 as ArrowNativeType>::from_i64(5), None);
    assert_eq!(<u32 as ArrowNativeType>::from_i64(5), None);
    assert_eq!(<u64 as ArrowNativeType>::from_i64(5), None);
}

#[test]
fn from_i128_converts_for_i128_alone() {
    assert_eq!(<i128 as ArrowNativeType>::from_i128(-5), Some(-5i128));
    assert_eq!(<i128 as ArrowNativeType>::from_i128(i128::MIN), Some(i128::MIN));
    assert_eq!(<i128 as ArrowNativeType>::from_i128(i128::MAX), Some(i128::MAX));
    assert_eq!(<i8 as ArrowNativeType>::from_i128(5), None);
    assert_eq!(<i16 as ArrowNativeType>::from_i128(5), None);
    assert_eq!(<i32 as ArrowNativeType>::from_i128(5), None);
    assert_eq!(<i64 as ArrowNativeType>::from_i128(5), None);
    assert_eq!(<u8 as ArrowNativeType>::from_i128(5), None);
    assert_eq!(<u16 as ArrowNativeType>::from_i128(5), None);
    assert_eq!(<u32 as ArrowNativeType>::from_i128(5), None);
    assert_eq!(<u64 as ArrowNativeType>::from_i128(5), None);
}

#[test]
fn as_i128_keeps_the_number() {
    assert_eq!((-128i8).as_i128(), -128i128);
    assert_eq!(i16::MIN.as_i128(), -32768i128);
    assert_eq!(i32::MAX.as_i128(), 2147483647i128);
    assert_eq!(i64::MIN.as_i128(), -9223372036854775808i128);
    assert_eq!(i128::MIN.as_i128(), i128::MIN);
    assert_eq!(255u8.as_i128(), 255i128);
    assert_eq!(65535u16.as_i128(), 65535i128);
    assert_eq!(u32::MAX.as_i128(), 4294967295i128);
    assert_eq!(u64::MAX.as_i128(), 18446744073709551615i128);
}

#[test]
fn usize_round_trip_through_a_native_type() {
    let n: usize = 100;
    let v = <i8 as ArrowNativeType>::from_usize(n).unwrap();
    assert_eq!(ArrowNativeType::to_usize(&v), Some(n));
    let w = <u64 as ArrowNativeType>::from_usize(usize::MAX).unwrap();
    assert_eq!(ArrowNativeType::to_usize(&w), Some(usize::MAX));
}

#[test]
fn native_values_have_the_supporting_capabilities() {
    fn check<T: ArrowNativeType + std::str::FromStr>(text: &str, shown: &str) {
        let parsed: T = match text.parse::<T>() {
            Ok(v) => v,
            Err(_) => panic!("a number must parse"),
        };
        assert_eq!(format!("{:?}", parsed), shown);
        assert!(T::default() <= parsed || parsed <= T::default());
    }
    check::<i8>("-7", "-7");
    check::<i16>("-7", "-7");
    check::<i32>("-7", "-7");
    check::<i64>("-7", "-7");
    check::<i128>("-7", "-7");
    check::<u8>("7", "7");
    check::<u16>("7", "7");
    check::<u32>("7", "7");
    check::<u64>("7", "7");
}
