//! The binary angle: an unsigned 32-bit value where the full circle is 2^32
//! units, so wraparound is ordinary modular arithmetic and every bit pattern
//! is a valid direction. Sine and cosine are resolved through the fine-sine
//! lookup table, quantized to the table's 8192 steps per circle.

use vstd::prelude::*;
use crate::arith::{div_trunc, lemma_wrap32u_range, wrap32u};
use crate::fixed::fixed_t;
use crate::tables::{fine_sine, fine_sine_spec};
use crate::vec_f2::VecF2;
use vstd::arithmetic::div_mod::lemma_div_is_ordered;
use vstd::arithmetic::power2::{lemma2_to64, lemma_pow2_pos, lemma_pow2_strictly_increases, pow2};
use vstd::bits::lemma_u64_shl_is_mul;

verus! {

/// One eighth of a turn.
pub const ANG45: u32 = 0x2000_0000;

/// A quarter turn.
pub const ANG90: u32 = 0x4000_0000;

/// A half turn.
pub const ANG180: u32 = 0x8000_0000;

/// Three quarters of a turn.
pub const ANG270: u32 = 0xc000_0000;

/// One degree, rounded down.
pub const ANG1: u32 = ANG45 / 45;

/// Five degrees, as five whole rounded-down degrees.
pub const ANG5: u32 = ANG45 / 45 * 5;

/// Number of fine angles spanning the circle in the sine table.
pub const FINEANGLES: u32 = 8192;

/// Mask selecting a fine-angle index.
pub const FINEMASK: u32 = FINEANGLES - 1;

/// A direction as a fraction of a full turn scaled to the 32-bit unsigned
/// range. All arithmetic wraps modulo 2^32: there is no invalid angle.
#[derive(Clone, Copy, Debug, PartialEq, Eq, Structural)]
pub struct Angle(pub u32);

impl Angle {
    /// Wraps a raw 32-bit value as an angle.
    pub fn new(v: u32) -> (r: Self)
        ensures
            r.0 == v,
    {
        Angle(v)
    }

    /// Reinterprets the bits of a signed value as an angle: a negative
    /// argument lands one full turn up.
    pub fn from_int(v: i32) -> (r: Self)
        ensures
            r.0 == wrap32u(v as int),
    {
        proof {
            lemma_wrap32u_range(v as int);
        }
        if v >= 0 {
            Angle(v as u32)
        } else {
            Angle(((v as i64) + 0x1_0000_0000) as u32)
        }
    }

    /// Converts a whole number of degrees to an angle by whole multiples of
    /// 45 degrees: the argument is divided by 45 (truncating) and scaled by
    /// one eighth of a turn, wrapping modulo 2^32.
    pub fn from_i16(v: i16) -> (r: Self)
        ensures
            r.0 == wrap32u(0x2000_0000 * wrap32u(div_trunc(v as int, 45))),
    {
        let q: i32 = if v >= 0 {
            (((v as u32) / 45) as i32)
        } else {
            -((((-(v as i32)) as u32) / 45) as i32)
        };
        proof {
            lemma_wrap32u_range(q as int);
        }
        let w: u32 = if q >= 0 {
            q as u32
        } else {
            ((q as i64) + 0x1_0000_0000) as u32
        };
        Angle(0x2000_0000u32.wrapping_mul(w))
    }

    /// The angle as a fixed-point count of rounded-down degrees: the raw
    /// value scaled by 65536 and divided by one degree's worth of units.
    pub fn to_fixed(self) -> (r: fixed_t)
        ensures
            r.0 == (self.0 as int) * 0x1_0000 / (ANG1 as int),
    {
        proof {
            lemma_div_is_ordered(
                (self.0 as int) * 0x1_0000,
                0xffff_ffffint * 0x1_0000,
                ANG1 as int,
            );
        }
        fixed_t(((self.0 as u64 * 0x1_0000) / (ANG1 as u64)) as i32)
    }

    /// The sine of the angle, read from the fine-sine table at the angle's
    /// top 13 bits.
    pub fn sin(&self) -> (r: fixed_t)
        ensures
            r.0 == fine_sine_spec((self.0 as int) / 0x8_0000),
    {
        fixed_t(fine_sine((self.0 / 0x8_0000) as usize))
    }

    /// The cosine of the angle: the fine-sine table read a quarter turn of
    /// entries further on.
    pub fn cos(&self) -> (r: fixed_t)
        ensures
            r.0 == fine_sine_spec((self.0 as int) / 0x8_0000 + 2048),
    {
        fixed_t(fine_sine((self.0 / 0x8_0000) as usize + 2048))
    }

    /// The sine and cosine together.
    pub fn sin_cos(&self) -> (r: (fixed_t, fixed_t))
        ensures
            r.0.0 == fine_sine_spec((self.0 as int) / 0x8_0000),
            r.1.0 == fine_sine_spec((self.0 as int) / 0x8_0000 + 2048),
    {
        (self.sin(), self.cos())
    }

    /// The unit vector pointing along the angle: cosine as x, sine as y.
    pub fn unit(&self) -> (r: VecF2)
        ensures
            r.x.0 == fine_sine_spec((self.0 as int) / 0x8_0000 + 2048),
            r.y.0 == fine_sine_spec((self.0 as int) / 0x8_0000),
    {
        let (y, x) = self.sin_cos();
        VecF2::new(x, y)
    }

    /// Wrapping addition of two angles.
    pub fn add(self, rhs: Self) -> (r: Self)
        ensures
            r.0 == wrap32u(self.0 + rhs.0),
    {
        proof {
            lemma_wrap32u_range(self.0 + rhs.0);
        }
        Angle(self.0.wrapping_add(rhs.0))
    }

    /// Wrapping subtraction of two angles.
    pub fn sub(self, rhs: Self) -> (r: Self)
        ensures
            r.0 == wrap32u(self.0 - rhs.0),
    {
        proof {
            lemma_wrap32u_range(self.0 - rhs.0);
        }
        Angle(self.0.wrapping_sub(rhs.0))
    }

    /// In-place wrapping addition.
    pub fn add_assign(&mut self, rhs: Self)
        ensures
            final(self).0 == wrap32u(old(self).0 + rhs.0),
    {
        *self = self.add(rhs);
    }

    /// In-place wrapping subtraction.
    pub fn sub_assign(&mut self, rhs: Self)
        ensures
            final(self).0 == wrap32u(old(self).0 - rhs.0),
    {
        *self = self.sub(rhs);
    }

    /// Logical right shift by `rhs` bits: division by 2^rhs.
    pub fn shr(self, rhs: usize) -> (r: Self)
        requires
            rhs < 32,
        ensures
            r.0 == (self.0 as int) / (pow2(rhs as nat) as int),
    {
        proof {
            lemma_pow2_strictly_increases(rhs as nat, 32);
            lemma2_to64();
            lemma_u64_shl_is_mul(1u64, rhs as u64);
            lemma_pow2_pos(rhs as nat);
        }
        let d: u64 = 1u64 << rhs;
        Angle(((self.0 as u64) / d) as u32)
    }
}

impl Default for Angle {
    /// The zero angle.
    fn default() -> (r: Self)
        ensures
            r.0 == 0,
    {
        Angle(0)
    }
}

impl PartialOrd for Angle {
    /// Angles order by their raw 32-bit value.
    fn partial_cmp(&self, other: &Self) -> (r: Option<core::cmp::Ordering>) {
        if self.0 < other.0 {
            Some(core::cmp::Ordering::Less)
        } else if self.0 == other.0 {
            Some(core::cmp::Ordering::Equal)
        } else {
            Some(core::cmp::Ordering::Greater)
        }
    }
}

impl vstd::std_specs::cmp::PartialOrdSpecImpl for Angle {
    open spec fn obeys_partial_cmp_spec() -> bool {
        true
    }

    open spec fn partial_cmp_spec(&self, other: &Self) -> Option<core::cmp::Ordering> {
        if self.0 < other.0 {
            Some(core::cmp::Ordering::Less)
        } else if self.0 == other.0 {
            Some(core::cmp::Ordering::Equal)
        } else {
            Some(core::cmp::Ordering::Greater)
        }
    }
}

} // verus!
