//! The 16.16 fixed-point scalar: a signed 32-bit integer read as value *
//! 65536, with truncating multiplication and saturating division.

use vstd::prelude::*;
use crate::arith::{div_trunc, lemma_wrap32_range, lemma_wrap32_small, wrap32};
use vstd::arithmetic::div_mod::{
    lemma_div_decreases, lemma_div_multiples_vanish, lemma_fundamental_div_mod,
    lemma_fundamental_div_mod_converse, lemma_mod_multiples_vanish, lemma_multiply_divide_lt,
};
use vstd::arithmetic::mul::lemma_mul_is_commutative;
use vstd::arithmetic::power2::{lemma2_to64, lemma_pow2_pos, lemma_pow2_strictly_increases, pow2};
use vstd::bits::lemma_u64_shl_is_mul;
use vstd::math::abs;

verus! {

/// Number of fractional bits in a fixed-point value.
pub const FRACBITS: i32 = 16;

/// The fixed-point representation of one: 2^16.
pub const FRACUNIT: i32 = 65536;

/// A 16.16 fixed-point number: the wrapped integer is the value scaled by
/// 65536. Arithmetic reproduces the legacy 32-bit integer semantics exactly:
/// addition and subtraction wrap, multiplication truncates the low 16 bits of
/// the 64-bit product, and division saturates instead of trapping.
#[allow(non_camel_case_types)]
#[derive(Clone, Copy, Debug, PartialEq, Eq, Structural)]
pub struct fixed_t(pub i32);

/// Shorthand constructor for a fixed-point value from its raw bits.
pub fn fixedt(x: i32) -> (r: fixed_t)
    ensures
        r.0 == x,
{
    fixed_t::new(x)
}

impl fixed_t {
    /// Wraps raw bits, already scaled by 65536, as a fixed-point value.
    pub fn new(v: i32) -> (r: Self)
        ensures
            r.0 == v,
    {
        fixed_t(v)
    }

    /// Converts a whole number to fixed point. Values outside [-32768, 32767]
    /// wrap modulo 2^32, as the legacy 32-bit scaling did.
    pub fn from_int(v: i32) -> (r: Self)
        ensures
            r.0 == wrap32(v * 0x1_0000),
            -0x8000 <= v <= 0x7fff ==> r.0 == v * 0x1_0000,
    {
        proof {
            lemma_mul_65536_wraps(v);
        }
        fixed_t(v.wrapping_mul(0x1_0000))
    }

    /// Converts a 16-bit whole number to fixed point; the result is exact.
    pub fn from_i16(v: i16) -> (r: Self)
        ensures
            r.0 == v * 0x1_0000,
    {
        fixed_t((v as i32) * 0x1_0000)
    }

    /// The absolute value. The most negative raw value has no 32-bit
    /// absolute value and is excluded.
    pub fn abs(self) -> (r: Self)
        requires
            self.0 != i32::MIN,
        ensures
            r.0 == vstd::math::abs(self.0 as int),
    {
        if self.0 < 0 {
            fixed_t(-self.0)
        } else {
            self
        }
    }

    /// Whether the value is negative.
    pub fn is_sign_negative(self) -> (r: bool)
        ensures
            r == (self.0 < 0),
    {
        self.0 < 0
    }

    /// Negation. The most negative raw value has no 32-bit negation and is
    /// excluded.
    pub fn neg(self) -> (r: Self)
        requires
            self.0 != i32::MIN,
        ensures
            r.0 == -self.0,
    {
        fixed_t(-self.0)
    }

    /// Wrapping addition of two fixed-point values.
    pub fn add(self, rhs: Self) -> (r: Self)
        ensures
            r.0 == wrap32(self.0 + rhs.0),
    {
        proof {
            lemma_wrap32_range(self.0 + rhs.0);
        }
        fixed_t(self.0.wrapping_add(rhs.0))
    }

    /// Wrapping subtraction of two fixed-point values.
    pub fn sub(self, rhs: Self) -> (r: Self)
        ensures
            r.0 == wrap32(self.0 - rhs.0),
    {
        proof {
            lemma_wrap32_range(self.0 - rhs.0);
        }
        fixed_t(self.0.wrapping_sub(rhs.0))
    }

    /// In-place wrapping addition.
    pub fn add_assign(&mut self, rhs: Self)
        ensures
            final(self).0 == wrap32(old(self).0 + rhs.0),
    {
        *self = self.add(rhs);
    }

    /// In-place wrapping subtraction.
    pub fn sub_assign(&mut self, rhs: Self)
        ensures
            final(self).0 == wrap32(old(self).0 - rhs.0),
    {
        *self = self.sub(rhs);
    }

    /// Fixed-point multiplication: the 64-bit product of the raw values,
    /// shifted down by 16 bits (flooring), narrowed back to 32 bits. Wraps on
    /// true overflow, exactly as the legacy 32-bit narrowing did.
    pub fn mul(self, rhs: Self) -> (r: Self)
        ensures
            r.0 == spec_fixed_mul(self.0 as int, rhs.0 as int),
            -0x8000_0000 <= (self.0 as int) * (rhs.0 as int) / 0x1_0000 < 0x8000_0000
                ==> r.0 == (self.0 as int) * (rhs.0 as int) / 0x1_0000,
    {
        proof {
            assert((self.0 as int) * (rhs.0 as int) <= 0x4000_0000_0000_0000
                && (self.0 as int) * (rhs.0 as int) >= -0x4000_0000_0000_0000) by (nonlinear_arith);
            let q0 = (self.0 as int) * (rhs.0 as int) / 0x1_0000;
            if -0x8000_0000 <= q0 < 0x8000_0000 {
                lemma_wrap32_small(q0);
            }
        }
        let p: i64 = (self.0 as i64) * (rhs.0 as i64);
        let q: i64 = if p >= 0 {
            ((p as u64) / 0x1_0000) as i64
        } else {
            proof {
                lemma_div_neg_is_neg_ceil((-(p as int)) as int, 0x1_0000);
            }
            -((((-p) as u64 + 0xffff) / 0x1_0000) as i64)
        };
        proof {
            lemma_mod_multiples_vanish(0x4000_0000, q as int, 0x1_0000_0000);
        }
        let s: u64 = (q + 0x4000_0000_0000_0000) as u64;
        let m: u64 = s % 0x1_0000_0000;
        if m >= 0x8000_0000 {
            fixed_t(((m as i64) - 0x1_0000_0000) as i32)
        } else {
            fixed_t(m as i32)
        }
    }

    /// In-place fixed-point multiplication.
    pub fn mul_assign(&mut self, rhs: Self)
        ensures
            final(self).0 == spec_fixed_mul(old(self).0 as int, rhs.0 as int),
    {
        *self = self.mul(rhs);
    }

    /// Fixed-point division. When the true quotient cannot be represented —
    /// the numerator's magnitude shifted down 14 bits reaches the
    /// denominator's magnitude, which covers division by zero — the result
    /// saturates to the signed extreme whose sign is positive when the
    /// operands agree in sign and negative when they differ. Otherwise the
    /// numerator is widened, scaled up by 65536, and divided exactly
    /// (truncating toward zero).
    pub fn div(self, rhs: Self) -> (r: Self)
        ensures
            r.0 == spec_fixed_div(self.0 as int, rhs.0 as int),
    {
        let na: u64 = if self.0 >= 0 {
            self.0 as u64
        } else {
            (-(self.0 as i64)) as u64
        };
        let da: u64 = if rhs.0 >= 0 {
            rhs.0 as u64
        } else {
            (-(rhs.0 as i64)) as u64
        };
        if na / 0x4000 >= da {
            if (self.0 < 0) != (rhs.0 < 0) {
                fixed_t(i32::MIN)
            } else {
                fixed_t(i32::MAX)
            }
        } else {
            proof {
                lemma_fundamental_div_mod(na as int, 0x4000);
                assert(na * 0x1_0000 < da * 0x4000_0000_0000) by (nonlinear_arith)
                    requires
                        na < da * 0x4000,
                ;
                lemma_multiply_divide_lt((na * 0x1_0000) as int, da as int, 0x4000_0000_0000);
                lemma_multiply_divide_lt((na * 0x1_0000) as int, da as int, 0x4000_0000);
            }
            let q: u64 = (na * 0x1_0000) / da;
            if (self.0 < 0) != (rhs.0 < 0) {
                fixed_t(-(q as i32))
            } else {
                fixed_t(q as i32)
            }
        }
    }

    /// In-place fixed-point division.
    pub fn div_assign(&mut self, rhs: Self)
        ensures
            final(self).0 == spec_fixed_div(old(self).0 as int, rhs.0 as int),
    {
        *self = self.div(rhs);
    }

    /// Arithmetic right shift by `rhs` bits: flooring division by 2^rhs,
    /// preserving the sign.
    pub fn shr(self, rhs: usize) -> (r: Self)
        requires
            rhs < 32,
        ensures
            r.0 == (self.0 as int) / (pow2(rhs as nat) as int),
    {
        proof {
            lemma_pow2_strictly_increases(rhs as nat, 32);
            lemma2_to64();
            lemma_u64_shl_is_mul(1u64, rhs as u64);
            lemma_pow2_pos(rhs as nat);
        }
        let d: u64 = 1u64 << rhs;
        if self.0 >= 0 {
            fixed_t(((self.0 as u64) / d) as i32)
        } else {
            let num: u64 = (-(self.0 as i64)) as u64;
            proof {
                lemma_div_neg_is_neg_ceil(num as int, d as int);
                vstd::arithmetic::mul::lemma_mul_inequality(1, d as int, 0x8000_0000);
                assert(d * 0x8000_0001 == d * 0x8000_0000 + d) by (nonlinear_arith);
                lemma_multiply_divide_lt(num + d - 1, d as int, 0x8000_0001);
            }
            fixed_t((-(((num + (d - 1)) / d) as i64)) as i32)
        }
    }

    /// The integer part: the raw value divided by 65536, truncating toward
    /// zero.
    pub fn to_int(self) -> (r: i32)
        ensures
            r == div_trunc(self.0 as int, 0x1_0000),
    {
        if self.0 >= 0 {
            ((self.0 as u64) / 0x1_0000) as i32
        } else {
            -((((-(self.0 as i64)) as u64) / 0x1_0000) as i32)
        }
    }

    /// The top eight bits of the magnitude: the absolute raw value divided by
    /// 2^24.
    pub fn to_u8(self) -> (r: u8)
        ensures
            r == abs(self.0 as int) / 0x100_0000,
    {
        if self.0 >= 0 {
            ((self.0 as u64) / 0x100_0000) as u8
        } else {
            (((-(self.0 as i64)) as u64) / 0x100_0000) as u8
        }
    }
}

/// Fixed-point multiplication of the raw values `a` and `b`: the full product
/// shifted down 16 bits (flooring), then wrapped into the signed 32-bit range.
pub open spec fn spec_fixed_mul(a: int, b: int) -> int {
    wrap32((a * b) / 0x1_0000)
}

/// Fixed-point division of the raw values `a` and `b`. If the magnitude of
/// `a` shifted down 14 bits reaches the magnitude of `b`, the quotient would
/// not fit: the result is the signed extreme, negative exactly when the signs
/// differ. Otherwise it is the exact scaled quotient, truncated toward zero.
pub open spec fn spec_fixed_div(a: int, b: int) -> int {
    if abs(a) / 0x4000 >= abs(b) {
        if (a < 0) != (b < 0) {
            i32::MIN as int
        } else {
            i32::MAX as int
        }
    } else if (a < 0) != (b < 0) {
        -((abs(a) * 0x1_0000) as int / abs(b) as int)
    } else {
        (abs(a) * 0x1_0000) as int / abs(b) as int
    }
}

impl Default for fixed_t {
    /// The zero value.
    fn default() -> (r: Self)
        ensures
            r.0 == 0,
    {
        fixed_t(0)
    }
}

impl PartialOrd for fixed_t {
    /// Fixed-point values order by their raw signed value.
    fn partial_cmp(&self, other: &Self) -> (r: Option<core::cmp::Ordering>) {
        if self.0 < other.0 {
            Some(core::cmp::Ordering::Less)
        } else if self.0 == other.0 {
            Some(core::cmp::Ordering::Equal)
        } else {
            Some(core::cmp::Ordering::Greater)
        }
    }
}

impl vstd::std_specs::cmp::PartialOrdSpecImpl for fixed_t {
    open spec fn obeys_partial_cmp_spec() -> bool {
        true
    }

    open spec fn partial_cmp_spec(&self, other: &Self) -> Option<core::cmp::Ordering> {
        if self.0 < other.0 {
            Some(core::cmp::Ordering::Less)
        } else if self.0 == other.0 {
            Some(core::cmp::Ordering::Equal)
        } else {
            Some(core::cmp::Ordering::Greater)
        }
    }
}

/// Multiplicative identity: multiplying any representable value by one (the
/// raw value 65536) returns the value unchanged.
pub proof fn lemma_mul_identity(a: i32)
    ensures
        spec_fixed_mul(a as int, FRACUNIT as int) == a as int,
{
    lemma_mul_is_commutative(a as int, 0x1_0000);
    lemma_div_multiples_vanish(a as int, 0x1_0000);
    crate::arith::lemma_wrap32_range(a as int);
}

/// Division identity: any nonzero value divided by itself yields exactly one
/// (the raw value 65536), for every nonzero representable value.
pub proof fn lemma_div_identity(a: i32)
    requires
        a != 0,
    ensures
        spec_fixed_div(a as int, a as int) == FRACUNIT as int,
{
    let m = abs(a as int) as int;
    lemma_div_decreases(m, 0x4000);
    lemma_div_multiples_vanish(0x1_0000, m);
    lemma_mul_is_commutative(m, 0x1_0000);
}

/// Saturation: dividing the maximum representable value by any value smaller
/// than one in magnitude yields the maximum representable value, or the
/// minimum when the divisor is negative — never a wrapped result.
pub proof fn lemma_div_saturates(b: i32)
    requires
        -0x1_0000 < b < 0x1_0000,
    ensures
        b >= 0 ==> spec_fixed_div(i32::MAX as int, b as int) == i32::MAX as int,
        b < 0 ==> spec_fixed_div(i32::MAX as int, b as int) == i32::MIN as int,
{
    assert(abs(i32::MAX as int) / 0x4000 == 0x1_ffff);
}

/// Flooring division of a negative value by a positive divisor equals the
/// negated ceiling division of the magnitudes.
proof fn lemma_div_neg_is_neg_ceil(n: int, d: int)
    requires
        n >= 0,
        d > 0,
    ensures
        (-n) / d == -((n + d - 1) / d),
{
    let q = n / d;
    let r = n % d;
    lemma_fundamental_div_mod(n, d);
    if r == 0 {
        assert((-q) * d == -(q * d)) by (nonlinear_arith);
        lemma_fundamental_div_mod_converse(-n, d, -q, 0);
        lemma_fundamental_div_mod_converse(n + d - 1, d, q, d - 1);
    } else {
        assert((-q - 1) * d == -(q * d) - d) by (nonlinear_arith);
        assert((q + 1) * d == q * d + d) by (nonlinear_arith);
        lemma_fundamental_div_mod_converse(-n, d, -q - 1, d - r);
        lemma_fundamental_div_mod_converse(n + d - 1, d, q + 1, r - 1);
    }
}

/// Multiplying by 65536 with 32-bit wraparound agrees with the mathematical
/// product reduced by `wrap32`.
proof fn lemma_mul_65536_wraps(v: i32)
    ensures
        vstd::wrapping::i32_specs::wrapping_mul(v, 0x1_0000) == wrap32(v * 0x1_0000),
{
    let p = v * 0x1_0000;
    assert(vstd::wrapping::i32_specs::signed_crop(p) == wrap32(p));
}

} // verus!
