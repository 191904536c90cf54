use correct_shift::{Correct, Num, SignedNum};

#[test]
fn it_works() {
    let mut a = Correct(1u8);
    a += 1;
    assert_eq!(a, 2);
    assert_eq!(a << 2, 8u8);
    assert_eq!(a << 8, 0u8);
}

#[test]
fn add_assign_then_compare() {
    let mut a = Correct(1u8);
    a += 1;
    assert_eq!(a, 2u8);
    assert_eq!(a, Correct(2u8));
}

#[test]
fn shl_by_two() {
    assert_eq!(Correct(2u8) << 2, 8u8);
}

#[test]
fn shl_at_limit_is_zero() {
    assert_eq!(Correct(2u8) << 8, 0u8);
    assert_eq!(Correct(2u8) >> 8, 0u8);
}

#[test]
fn shl_below_limit_wraps_bits_out() {
    assert_eq!(Correct(255u8) << 1, 254u8);
    assert_eq!(Correct(255u8) << 1, 255u8.overflowing_shl(1).0);
}

#[test]
fn abs_and_sign_of_negative() {
    assert_eq!(Correct(-5i32).abs(), Correct(5i32));
    assert!(Correct(-5i32).is_negative());
    assert!(!Correct(-5i32).is_positive());
}

#[test]
fn limit_is_eight_for_wide_types() {
    assert_eq!(Correct(1u64) << 7, 128u64);
    assert_eq!(Correct(1u64) << 8, 0u64);
    assert_eq!(Correct(1u128) << 8u32, 0u128);
    assert_eq!(Correct(256i32) >> 8, 0i32);
    assert_eq!(Correct(256i32) >> 7, 2i32);
}

#[test]
fn past_limit_for_every_amount_type() {
    let x = Correct(0x5au8);
    assert_eq!(x << 8usize, 0u8);
    assert_eq!(x << 9u32, 0u8);
    assert_eq!(x << 100u64, 0u8);
    assert_eq!(x << u128::MAX, 0u8);
    assert_eq!(x << 8isize, 0u8);
    assert_eq!(x << 8i32, 0u8);
    assert_eq!(x << i64::MAX, 0u8);
    assert_eq!(x << 1000i128, 0u8);
    assert_eq!(x >> 8usize, 0u8);
    assert_eq!(x >> 9u32, 0u8);
    assert_eq!(x >> 100u64, 0u8);
    assert_eq!(x >> u128::MAX, 0u8);
    assert_eq!(x >> 8isize, 0u8);
    assert_eq!(x >> 8i32, 0u8);
    assert_eq!(x >> i64::MAX, 0u8);
    assert_eq!(x >> 1000i128, 0u8);
}

#[test]
fn below_limit_matches_overflowing_shift() {
    for r in 0u32..8 {
        let x = 0xb7u8;
        assert_eq!(Correct(x) << r, x.overflowing_shl(r).0);
        assert_eq!(Correct(x) >> r, x.overflowing_shr(r).0);
        let y = -77i16;
        assert_eq!(Correct(y) << (r as i64), y.overflowing_shl(r).0);
        assert_eq!(Correct(y) >> (r as usize), y.overflowing_shr(r).0);
    }
}

#[test]
fn negative_amount_shifts_by_truncated_amount() {
    assert_eq!(Correct(1u8) << -1i32, 128u8);
    assert_eq!(Correct(128u8) >> -1i64, 1u8);
}

#[test]
fn shift_assign_replaces_value() {
    let mut a = Correct(3u16);
    a <<= 2u8 as u32;
    assert_eq!(a, 12u16);
    a >>= 1i32;
    assert_eq!(a, 6u16);
    a <<= 8usize;
    assert_eq!(a, 0u16);
}

#[test]
fn forwarded_operators_match_native() {
    let (x, y) = (100u8, 7u8);
    assert_eq!(Correct(x) + Correct(y), Correct(x + y));
    assert_eq!(Correct(x) - Correct(y), Correct(x - y));
    assert_eq!(Correct(x) * Correct(2u8), Correct(x * 2));
    assert_eq!(Correct(x) / Correct(y), Correct(14u8));
    assert_eq!(Correct(x) % Correct(y), Correct(2u8));
    assert_eq!(Correct(x) | Correct(y), Correct(x | y));
    assert_eq!(Correct(x) & Correct(y), Correct(x & y));
    assert_eq!(Correct(x) ^ Correct(y), Correct(x ^ y));
    assert_eq!(Correct(x) + y, 107u8);
    assert_eq!(Correct(x) - y, 93u8);
    assert_eq!(Correct(x) * 2u8, 200u8);
    assert_eq!(Correct(x) / y, 14u8);
    assert_eq!(Correct(x) % y, 2u8);
    assert_eq!(Correct(x) | y, 103u8);
    assert_eq!(Correct(x) & y, 4u8);
    assert_eq!(Correct(x) ^ y, 99u8);
}

#[test]
fn signed_division_truncates() {
    assert_eq!(Correct(-7i32) / Correct(2i32), -3i32);
    assert_eq!(Correct(-7i32) % 2i32, -1i32);
}

#[test]
fn assign_operators_match_native() {
    let mut a = Correct(10i64);
    a += Correct(5i64);
    assert_eq!(a, 15i64);
    a -= 20i64;
    assert_eq!(a, -5i64);
    a *= Correct(-3i64);
    assert_eq!(a, 15i64);
    a /= 4i64;
    assert_eq!(a, 3i64);
    a %= Correct(2i64);
    assert_eq!(a, 1i64);
    a |= 6i64;
    assert_eq!(a, 7i64);
    a &= Correct(5i64);
    assert_eq!(a, 5i64);
    a ^= 1i64;
    assert_eq!(a, 4i64);
}

#[test]
fn equality_laws() {
    let a = Correct(9u32);
    let b = Correct(9u32);
    let c = Correct(9u32);
    let d = Correct(10u32);
    assert!(a == a);
    assert!(a == b && b == a);
    assert!(a == b && b == c && a == c);
    assert!(a != d);
    assert!(a == 9u32);
    assert!(a != 10u32);
}

#[test]
fn sign_trichotomy() {
    for v in [-128i8, -3, 0, 3, 127] {
        let x = Correct(v);
        let n = x.is_negative();
        let p = x.is_positive();
        let z = x == Correct::<i8>::zero();
        assert_eq!((n as u8) + (p as u8) + (z as u8), 1);
    }
}

#[test]
fn abs_of_negation() {
    for v in [-100i32, -1, 0, 1, 100, i32::MAX] {
        let x = Correct(v);
        assert_eq!(x.abs(), (-x).abs());
        assert_eq!(x.abs(), v.abs());
    }
}

#[test]
fn abs_of_minimum_is_minimum() {
    assert_eq!(Correct(i8::MIN).abs(), i8::MIN);
    assert_eq!(Correct(i64::MIN).abs(), i64::MIN);
}

#[test]
fn negation_forwards() {
    assert_eq!(-Correct(5i16), -5i16);
    assert_eq!(-Correct(-5i16), 5i16);
}

#[test]
fn zero_is_additive_identity() {
    assert_eq!(Correct::<u8>::zero(), 0u8);
    assert_eq!(Correct(42u32) + Correct::<u32>::zero(), 42u32);
    assert_eq!(<u64 as Num>::zero(), 0u64);
    assert_eq!(<isize as Num>::zero(), 0isize);
}

#[test]
fn num_shift_primitive_takes_amount_modulo_width() {
    assert_eq!(<u8 as Num>::overflowing_shl(3u8, 9), 6u8);
    assert_eq!(<u8 as Num>::overflowing_shr(96u8, 13), 3u8);
    assert_eq!(<i32 as Num>::overflowing_shl(1i32, 33), 2i32);
    assert_eq!(<u128 as Num>::overflowing_shr(1u128 << 127, 255), 1u128);
}

#[test]
fn signed_num_primitives() {
    assert_eq!(<i16 as SignedNum>::abs(-9i16), 9i16);
    assert_eq!(<i16 as SignedNum>::abs(i16::MIN), i16::MIN);
    assert!(<i64 as SignedNum>::is_negative(-1i64));
    assert!(!<i64 as SignedNum>::is_positive(0i64));
    assert!(<isize as SignedNum>::is_positive(2isize));
}

#[test]
fn wrapper_as_num_uses_corrected_shift() {
    let x = Correct(0x81u16);
    assert_eq!(<Correct<u16> as Num>::overflowing_shl(x, 1), 0x102u16);
    assert_eq!(<Correct<u16> as Num>::overflowing_shl(x, 8), 0u16);
    assert_eq!(<Correct<u16> as Num>::overflowing_shr(x, 20), 0u16);
    assert_eq!(<Correct<u16> as Num>::zero(), 0u16);
    let s = Correct(-4i8);
    assert_eq!(<Correct<i8> as SignedNum>::abs(s), 4i8);
    assert!(<Correct<i8> as SignedNum>::is_negative(s));
}

#[test]
fn from_wraps_value() {
    let c: Correct<u32> = Correct::from(77u32);
    assert_eq!(c, Correct(77u32));
    let d: Correct<i8> = (-2i8).into();
    assert_eq!(d.0, -2i8);
}
