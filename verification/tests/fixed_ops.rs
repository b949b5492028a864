//! Tests of the fixed-point scalar: conversions, wrapping addition and
//! subtraction, truncating multiplication, and saturating division.

use math::fixed::{fixed_t, fixedt};

#[test]
fn test_fmul() {
    let result = fixed_t::from_int(2).mul(fixed_t::from_int(1));
    assert_eq!(result, fixed_t::from_int(2))
}

#[test]
fn mul_identity_holds_across_signs() {
    let one = fixed_t::from_int(1);
    for raw in [1, -1, 12345, -987654, i32::MAX, i32::MIN, 0] {
        assert_eq!(fixed_t::new(raw).mul(one), fixed_t::new(raw));
    }
}

#[test]
fn mul_truncates_fractions() {
    // 1.5 * 2.25 = 3.375
    let a = fixed_t::new(3 * 65536 / 2);
    let b = fixed_t::new(9 * 65536 / 4);
    assert_eq!(a.mul(b), fixed_t::new(27 * 65536 / 8));
    // 0.5 * 0.00001526 (one raw unit) floors to zero
    assert_eq!(fixed_t::new(32768).mul(fixed_t::new(1)), fixed_t::new(0));
    // ... but the same product of negative sign floors down to -1
    assert_eq!(fixed_t::new(-32768).mul(fixed_t::new(1)), fixed_t::new(-1));
}

#[test]
fn div_identity_holds_for_nonzero() {
    let one = fixed_t::from_int(1);
    for raw in [1, -1, 2, 65536, -65536, 123456789, i32::MAX, i32::MIN] {
        assert_eq!(fixed_t::new(raw).div(fixed_t::new(raw)), one);
    }
}

#[test]
fn div_exact_quotients() {
    let a = fixed_t::from_int(1);
    let b = fixed_t::from_int(2);
    assert_eq!(a.div(b), fixed_t::new(32768));
    assert_eq!(fixed_t::from_int(-6).div(fixed_t::from_int(3)), fixed_t::from_int(-2));
}

#[test]
fn div_saturates_instead_of_wrapping() {
    let max = fixed_t::new(i32::MAX);
    let half = fixed_t::new(32768);
    // |max| >> 14 far exceeds any divisor smaller than one: saturate.
    assert_eq!(max.div(half), fixed_t::new(i32::MAX));
    assert_eq!(max.div(fixed_t::new(-32768)), fixed_t::new(i32::MIN));
    assert_eq!(fixed_t::new(-100).div(fixed_t::new(0)), fixed_t::new(i32::MIN));
    assert_eq!(fixed_t::new(100).div(fixed_t::new(0)), fixed_t::new(i32::MAX));
}

#[test]
fn add_and_sub_wrap() {
    assert_eq!(fixed_t::new(i32::MAX).add(fixed_t::new(1)), fixed_t::new(i32::MIN));
    assert_eq!(fixed_t::new(i32::MIN).sub(fixed_t::new(1)), fixed_t::new(i32::MAX));
    assert_eq!(fixed_t::from_int(3).add(fixed_t::from_int(4)), fixed_t::from_int(7));
    let mut acc = fixed_t::from_int(10);
    acc.add_assign(fixed_t::from_int(-4));
    assert_eq!(acc, fixed_t::from_int(6));
    acc.sub_assign(fixed_t::from_int(1));
    assert_eq!(acc, fixed_t::from_int(5));
}

#[test]
fn conversions_round_trip() {
    assert_eq!(fixed_t::from_int(5).to_int(), 5);
    assert_eq!(fixed_t::from_i16(-300), fixed_t::new(-300 * 65536));
    assert_eq!(fixedt(65536), fixed_t::from_int(1));
    // from_int wraps outside the 16-bit whole range, as the legacy scaling did
    let wrapped = 40000i64 * 65536 - (1i64 << 32);
    assert_eq!(fixed_t::from_int(40000), fixed_t::new(wrapped as i32));
}

#[test]
fn to_int_truncates_toward_zero() {
    assert_eq!(fixed_t::new(-98304).to_int(), -1); // -1.5 -> -1
    assert_eq!(fixed_t::new(98304).to_int(), 1); // 1.5 -> 1
    assert_eq!(fixed_t::new(i32::MIN).to_int(), -32768);
}

#[test]
fn shr_is_arithmetic() {
    assert_eq!(fixed_t::new(-3).shr(1), fixed_t::new(-2)); // floors, not toward zero
    assert_eq!(fixed_t::new(7).shr(1), fixed_t::new(3));
    assert_eq!(fixed_t::new(-65536).shr(16), fixed_t::new(-1));
    assert_eq!(fixed_t::new(i32::MIN).shr(31), fixed_t::new(-1));
}

#[test]
fn magnitude_helpers() {
    assert_eq!(fixed_t::new(-7).abs(), fixed_t::new(7));
    assert_eq!(fixed_t::new(7).abs(), fixed_t::new(7));
    assert!(fixed_t::new(-1).is_sign_negative());
    assert!(!fixed_t::new(0).is_sign_negative());
    assert_eq!(fixed_t::new(-5).neg(), fixed_t::new(5));
    assert_eq!(fixed_t::new(i32::MIN).to_u8(), 128);
    assert_eq!(fixed_t::new(0x7700_0000).to_u8(), 0x77);
}

#[test]
fn ordering_follows_raw_value() {
    assert!(fixed_t::new(-1) < fixed_t::new(0));
    assert!(fixed_t::new(2) > fixed_t::new(1));
    assert_eq!(fixed_t::default(), fixed_t::new(0));
}
