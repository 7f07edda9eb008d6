use arrow_native::ArrowNativeTypeOp;

#[test]
fn u8_add_overflows_at_255_plus_1() {
    assert_eq!(255u8.add_checked(1), None);
    assert_eq!(255u8.add_wrapping(1), 0);
    assert_eq!(254u8.add_checked(1), Some(255));
    assert_eq!(254u8.add_wrapping(1), 255);
}

#[test]
fn checked_add_of_each_type() {
    assert_eq!(100i8.add_checked(27), Some(127));
    assert_eq!(100i8.add_checked(28), None);
    assert_eq!((-100i8).add_checked(-29), None);
    assert_eq!(i16::MAX.add_checked(1), None);
    assert_eq!(i16::MIN.add_checked(-1), None);
    assert_eq!(1000i16.add_checked(234), Some(1234));
    assert_eq!(i32::MAX.add_checked(1), None);
    assert_eq!(2i32.add_checked(3), Some(5));
    assert_eq!(i64::MAX.add_checked(1), None);
    assert_eq!((-2i64).add_checked(-3), Some(-5));
    assert_eq!(u16::MAX.add_checked(1), None);
    assert_eq!(u32::MAX.add_checked(1), None);
    assert_eq!(u64::MAX.add_checked(1), None);
    assert_eq!(40000u16.add_checked(20000), Some(60000));
    assert_eq!(7u32.add_checked(8), Some(15));
    assert_eq!(7u64.add_checked(8), Some(15));
}

#[test]
fn wrapping_add_of_each_type() {
    assert_eq!(127i8.add_wrapping(1), -128);
    assert_eq!((-128i8).add_wrapping(-1), 127);
    assert_eq!(i16::MAX.add_wrapping(1), i16::MIN);
    assert_eq!(i32::MAX.add_wrapping(2), i32::MIN + 1);
    assert_eq!(i64::MIN.add_wrapping(-1), i64::MAX);
    assert_eq!(200u8.add_wrapping(100), 44);
    assert_eq!(u16::MAX.add_wrapping(2), 1);
    assert_eq!(u32::MAX.add_wrapping(1), 0);
    assert_eq!(u64::MAX.add_wrapping(u64::MAX), u64::MAX - 1);
}

#[test]
fn checked_sub_of_each_type() {
    assert_eq!((-128i8).sub_checked(1), None);
    assert_eq!(127i8.sub_checked(-1), None);
    assert_eq!(5i8.sub_checked(7), Some(-2));
    assert_eq!(i16::MIN.sub_checked(1), None);
    assert_eq!(i32::MIN.sub_checked(1), None);
    assert_eq!(i64::MIN.sub_checked(1), None);
    assert_eq!(10i64.sub_checked(3), Some(7));
    assert_eq!(0u8.sub_checked(1), None);
    assert_eq!(0u16.sub_checked(1), None);
    assert_eq!(0u32.sub_checked(1), None);
    assert_eq!(0u64.sub_checked(1), None);
    assert_eq!(9u32.sub_checked(9), Some(0));
}

#[test]
fn wrapping_sub_of_each_type() {
    assert_eq!((-128i8).sub_wrapping(1), 127);
    assert_eq!(127i8.sub_wrapping(-1), -128);
    assert_eq!(i16::MIN.sub_wrapping(1), i16::MAX);
    assert_eq!(i32::MIN.sub_wrapping(1), i32::MAX);
    assert_eq!(i64::MIN.sub_wrapping(1), i64::MAX);
    assert_eq!(0u8.sub_wrapping(1), 255);
    assert_eq!(0u16.sub_wrapping(1), 65535);
    assert_eq!(3u32.sub_wrapping(5), u32::MAX - 1);
    assert_eq!(0u64.sub_wrapping(1), u64::MAX);
}

#[test]
fn checked_mul_of_each_type() {
    assert_eq!(16i8.mul_checked(8), None);
    assert_eq!(16i8.mul_checked(-8), Some(-128));
    assert_eq!(11i8.mul_checked(11), Some(121));
    assert_eq!(i16::MAX.mul_checked(2), None);
    assert_eq!(i32::MIN.mul_checked(-1), None);
    assert_eq!(i64::MAX.mul_checked(2), None);
    assert_eq!((-3i64).mul_checked(4), Some(-12));
    assert_eq!(16u8.mul_checked(16), None);
    assert_eq!(15u8.mul_checked(17), Some(255));
    assert_eq!(256u16.mul_checked(256), None);
    assert_eq!(65536u32.mul_checked(65536), None);
    assert_eq!(u64::MAX.mul_checked(2), None);
    assert_eq!(6u64.mul_checked(7), Some(42));
}

#[test]
fn wrapping_mul_of_each_type() {
    assert_eq!(100i8.mul_wrapping(100), 16);
    assert_eq!((-100i8).mul_wrapping(100), -16);
    assert_eq!(i16::MAX.mul_wrapping(2), -2);
    assert_eq!(i32::MIN.mul_wrapping(-1), i32::MIN);
    assert_eq!(i64::MAX.mul_wrapping(i64::MAX), 1);
    assert_eq!(100u8.mul_wrapping(100), 16);
    assert_eq!(200u8.mul_wrapping(2), 144);
    assert_eq!(256u16.mul_wrapping(256), 0);
    assert_eq!(65537u32.mul_wrapping(65537), 131073);
    assert_eq!(u64::MAX.mul_wrapping(u64::MAX), 1);
}

#[test]
fn checked_div_by_zero_is_none_for_every_type() {
    assert_eq!(7i8.div_checked(0), None);
    assert_eq!(7i16.div_checked(0), None);
    assert_eq!(7i32.div_checked(0), None);
    assert_eq!(7i64.div_checked(0), None);
    assert_eq!(7u8.div_checked(0), None);
    assert_eq!(7u16.div_checked(0), None);
    assert_eq!(7u32.div_checked(0), None);
    assert_eq!(7u64.div_checked(0), None);
    assert_eq!(0i32.div_checked(0), None);
    assert_eq!(i64::MIN.div_checked(0), None);
}

#[test]
fn checked_div_rounds_toward_zero() {
    assert_eq!(7i8.div_checked(2), Some(3));
    assert_eq!((-7i8).div_checked(2), Some(-3));
    assert_eq!(7i16.div_checked(-2), Some(-3));
    assert_eq!((-7i32).div_checked(-2), Some(3));
    assert_eq!(1000i32.div_checked(-7), Some(-142));
    assert_eq!((-1i64).div_checked(2), Some(0));
    assert_eq!(255u8.div_checked(16), Some(15));
    assert_eq!(65535u16.div_checked(256), Some(255));
    assert_eq!(9u32.div_checked(10), Some(0));
    assert_eq!(u64::MAX.div_checked(u64::MAX), Some(1));
}

#[test]
fn least_signed_value_divided_by_minus_one() {
    assert_eq!(i8::MIN.div_checked(-1), None);
    assert_eq!(i16::MIN.div_checked(-1), None);
    assert_eq!(i32::MIN.div_checked(-1), None);
    assert_eq!(i64::MIN.div_checked(-1), None);
    assert_eq!(i8::MIN.div_wrapping(-1), i8::MIN);
    assert_eq!(i16::MIN.div_wrapping(-1), i16::MIN);
    assert_eq!(i32::MIN.div_wrapping(-1), i32::MIN);
    assert_eq!(i64::MIN.div_wrapping(-1), i64::MIN);
}

#[test]
fn wrapping_div_rounds_toward_zero() {
    assert_eq!(7i8.div_wrapping(2), 3);
    assert_eq!((-7i8).div_wrapping(2), -3);
    assert_eq!(7i16.div_wrapping(-2), -3);
    assert_eq!((-7i32).div_wrapping(-2), 3);
    assert_eq!(i64::MAX.div_wrapping(-1), -i64::MAX);
    assert_eq!(i8::MIN.div_wrapping(1), i8::MIN);
    assert_eq!(255u8.div_wrapping(16), 15);
    assert_eq!(65535u16.div_wrapping(256), 255);
    assert_eq!(9u32.div_wrapping(10), 0);
    assert_eq!(u64::MAX.div_wrapping(2), u64::MAX >> 1);
}

#[test]
fn a_checked_result_is_the_wrapping_result() {
    fn agree<T: ArrowNativeTypeOp + std::fmt::Debug>(a: T, b: T, zero: T) {
        if let Some(r) = a.add_checked(b) {
            assert_eq!(r, a.add_wrapping(b));
        }
        if let Some(r) = a.sub_checked(b) {
            assert_eq!(r, a.sub_wrapping(b));
        }
        if let Some(r) = a.mul_checked(b) {
            assert_eq!(r, a.mul_wrapping(b));
        }
        if let Some(r) = a.div_checked(b) {
            assert_eq!(r, a.div_wrapping(b));
        }
        assert_eq!(a.div_checked(zero), None);
    }
    let signed: [i8; 9] = [-128, -127, -64, -1, 0, 1, 63, 126, 127];
    for a in signed {
        for b in signed {
            agree(a, b, 0);
            agree(a as i16 * 256, b as i16 * 256, 0);
            agree(a as i32 * 16777216, b as i32 * 16777216, 0);
            agree(a as i64 * 72057594037927936, b as i64 * 72057594037927936, 0);
        }
    }
    let unsigned: [u8; 7] = [0, 1, 2, 127, 128, 254, 255];
    for a in unsigned {
        for b in unsigned {
            agree(a, b, 0);
            agree(a as u16 * 257, b as u16 * 257, 0);
            agree(a as u32 * 16843009, b as u32 * 16843009, 0);
            agree(a as u64 * 72340172838076673, b as u64 * 72340172838076673, 0);
        }
    }
}

#[test]
fn checked_add_is_none_exactly_on_overflow() {
    for a in i8::MIN..=i8::MAX {
        for b in i8::MIN..=i8::MAX {
            let sum = a as i32 + b as i32;
            let fits = -128 <= sum && sum <= 127;
            assert_eq!(a.add_checked(b).is_none(), !fits);
            if fits {
                assert_eq!(a.add_checked(b), Some(sum as i8));
            }
            let wrapped = (sum + 128).rem_euclid(256) - 128;
            assert_eq!(a.add_wrapping(b) as i32, wrapped);
        }
    }
    for a in 0..=u8::MAX {
        for b in 0..=u8::MAX {
            let sum = a as u32 + b as u32;
            assert_eq!(a.add_checked(b).is_none(), sum > 255);
            assert_eq!(a.add_wrapping(b) as u32, sum % 256);
        }
    }
}
