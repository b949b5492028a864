//! Tests of the binary angle: wraparound arithmetic, conversions, and the
//! table-driven sine and cosine.

use math::angle::{Angle, ANG1, ANG180, ANG270, ANG45, ANG90};
use math::fixed::fixed_t;

#[test]
fn angle_wraparound() {
    // A half turn plus a half turn is a full turn: zero.
    assert_eq!(Angle::new(ANG180).add(Angle::new(ANG180)), Angle::new(0));
    // Three quarter turns less a half turn is a quarter turn.
    assert_eq!(Angle::new(ANG270).sub(Angle::new(ANG180)), Angle::new(ANG90));
    let mut a = Angle::new(ANG270);
    a.add_assign(Angle::new(ANG90));
    assert_eq!(a, Angle::new(0));
    a.sub_assign(Angle::new(ANG45));
    assert_eq!(a, Angle::new(ANG270 + ANG45));
}

#[test]
fn angle_from_int_reinterprets() {
    assert_eq!(Angle::from_int(1), Angle::new(1));
    assert_eq!(Angle::from_int(-1), Angle::new(u32::MAX));
    assert_eq!(Angle::from_int(i32::MIN), Angle::new(ANG180));
}

#[test]
fn angle_from_i16_scales_whole_octants() {
    assert_eq!(Angle::from_i16(45), Angle::new(ANG45));
    assert_eq!(Angle::from_i16(90), Angle::new(ANG90));
    assert_eq!(Angle::from_i16(270), Angle::new(ANG270));
    assert_eq!(Angle::from_i16(-90), Angle::new(ANG270));
    // Degrees are taken in whole multiples of 45: the remainder is dropped.
    assert_eq!(Angle::from_i16(89), Angle::new(ANG45));
}

#[test]
fn angle_to_fixed_degrees() {
    // One eighth of a turn reads as exactly 45 degrees in fixed point.
    assert_eq!(Angle::new(ANG45).to_fixed(), fixed_t::new(45 * 65536));
    assert_eq!(Angle::new(ANG90).to_fixed(), fixed_t::new(90 * 65536));
    assert_eq!(Angle::new(ANG1).to_fixed(), fixed_t::new(65536));
    assert_eq!(Angle::new(ANG1 - 1).to_fixed(), fixed_t::new(65535));
}

#[test]
fn sine_and_cosine_legacy_values() {
    // The table is quantized: angle zero reads the first half-step entry.
    assert_eq!(Angle::new(0).sin(), fixed_t::new(25));
    assert_eq!(Angle::new(0).cos(), fixed_t::new(65535));
    assert_eq!(Angle::new(ANG90).sin(), fixed_t::new(65535));
    assert_eq!(Angle::new(ANG90).cos(), fixed_t::new(-25));
    assert_eq!(Angle::new(ANG180).sin(), fixed_t::new(-25));
    assert_eq!(Angle::new(ANG180).cos(), fixed_t::new(-65535));
    assert_eq!(Angle::new(ANG270).sin(), fixed_t::new(-65535));
    assert_eq!(Angle::new(ANG270).cos(), fixed_t::new(25));
    assert_eq!(Angle::new(ANG45).sin(), fixed_t::new(46358));
    assert_eq!(Angle::new(ANG45).cos(), fixed_t::new(46323));
}

#[test]
fn sin_cos_and_unit_agree() {
    let a = Angle::new(ANG45 + 12345);
    let (s, c) = a.sin_cos();
    assert_eq!(s, a.sin());
    assert_eq!(c, a.cos());
    let u = a.unit();
    assert_eq!(u.x, c);
    assert_eq!(u.y, s);
}

#[test]
fn cosine_reads_sine_a_quarter_turn_on() {
    // For angles below three quarter turns the cosine entry is the sine
    // entry of the angle a quarter turn further, before any wraparound.
    for raw in [0u32, 1 << 19, ANG45, ANG90 + 7, ANG180] {
        let cos = Angle::new(raw).cos();
        let sin_shifted = Angle::new(raw + ANG90).sin();
        assert_eq!(cos, sin_shifted);
    }
}

#[test]
fn angle_shr_divides() {
    assert_eq!(Angle::new(ANG90).shr(19), Angle::new(2048));
    assert_eq!(Angle::new(0xffff_ffff).shr(1), Angle::new(0x7fff_ffff));
}

#[test]
fn angle_ordering_and_default() {
    assert!(Angle::new(1) < Angle::new(2));
    assert!(Angle::new(ANG270) > Angle::new(ANG90));
    assert_eq!(Angle::default(), Angle::new(0));
}
