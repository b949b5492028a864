//! Shared arithmetic model: 32-bit wrapping, truncating division, and the
//! lemmas that connect them to the executable operations.

use vstd::prelude::*;
use vstd::arithmetic::div_mod::{
    lemma_mod_add_multiples_vanish, lemma_mod_sub_multiples_vanish, lemma_small_mod,
};

verus! {

/// The value of `x` reduced into the signed 32-bit range, two's-complement
/// style: the unique integer congruent to `x` modulo 2^32 that lies in
/// [-2^31, 2^31).
pub open spec fn wrap32(x: int) -> int {
    if x % 0x1_0000_0000 >= 0x8000_0000 {
        x % 0x1_0000_0000 - 0x1_0000_0000
    } else {
        x % 0x1_0000_0000
    }
}

/// The value of `x` reduced modulo 2^32 into [0, 2^32): unsigned 32-bit
/// wraparound.
pub open spec fn wrap32u(x: int) -> int {
    x % 0x1_0000_0000
}

/// Division truncating toward zero, for a positive divisor: the rounding the
/// machine's signed division performs.
pub open spec fn div_trunc(a: int, d: int) -> int {
    if a >= 0 {
        a / d
    } else {
        -((-a) / d)
    }
}

/// A value already in signed 32-bit range wraps to itself.
pub proof fn lemma_wrap32_small(x: int)
    requires
        -0x8000_0000 <= x < 0x8000_0000,
    ensures
        wrap32(x) == x,
{
    if x >= 0 {
        lemma_small_mod(x as nat, 0x1_0000_0000);
    } else {
        lemma_mod_add_multiples_vanish(x, 0x1_0000_0000);
        lemma_small_mod((x + 0x1_0000_0000) as nat, 0x1_0000_0000);
    }
}

/// Shifting the argument by a full 2^32 does not change its wrapped value.
pub proof fn lemma_wrap32_shift(x: int)
    ensures
        wrap32(x + 0x1_0000_0000) == wrap32(x),
        wrap32(x - 0x1_0000_0000) == wrap32(x),
{
    lemma_mod_add_multiples_vanish(x, 0x1_0000_0000);
    lemma_mod_sub_multiples_vanish(x, 0x1_0000_0000);
}

/// For an argument within one wrap of the signed range — any sum, difference
/// or negation of two signed 32-bit values — `wrap32` either keeps it or moves
/// it by exactly 2^32.
pub proof fn lemma_wrap32_range(x: int)
    requires
        -0x1_0000_0000 <= x < 0x1_0000_0000,
    ensures
        -0x8000_0000 <= x < 0x8000_0000 ==> wrap32(x) == x,
        x >= 0x8000_0000 ==> wrap32(x) == x - 0x1_0000_0000,
        x < -0x8000_0000 ==> wrap32(x) == x + 0x1_0000_0000,
{
    if -0x8000_0000 <= x < 0x8000_0000 {
        lemma_wrap32_small(x);
    } else if x >= 0x8000_0000 {
        lemma_wrap32_shift(x - 0x1_0000_0000);
        lemma_wrap32_small(x - 0x1_0000_0000);
    } else {
        lemma_wrap32_shift(x);
        lemma_wrap32_small(x + 0x1_0000_0000);
    }
}

/// A value already in unsigned 32-bit range wraps to itself.
pub proof fn lemma_wrap32u_small(x: int)
    requires
        0 <= x < 0x1_0000_0000,
    ensures
        wrap32u(x) == x,
{
    lemma_small_mod(x as nat, 0x1_0000_0000);
}

/// For an argument within one wrap of the unsigned range — any sum or
/// difference of two unsigned 32-bit values, or a signed 32-bit value
/// reinterpreted — `wrap32u` either keeps it or moves it by exactly 2^32.
pub proof fn lemma_wrap32u_range(x: int)
    requires
        -0x1_0000_0000 <= x < 0x2_0000_0000,
    ensures
        0 <= x < 0x1_0000_0000 ==> wrap32u(x) == x,
        x >= 0x1_0000_0000 ==> wrap32u(x) == x - 0x1_0000_0000,
        x < 0 ==> wrap32u(x) == x + 0x1_0000_0000,
{
    if 0 <= x < 0x1_0000_0000 {
        lemma_wrap32u_small(x);
    } else if x >= 0x1_0000_0000 {
        lemma_mod_sub_multiples_vanish(x, 0x1_0000_0000);
        lemma_wrap32u_small(x - 0x1_0000_0000);
    } else {
        lemma_mod_add_multiples_vanish(x, 0x1_0000_0000);
        lemma_wrap32u_small(x + 0x1_0000_0000);
    }
}

} // verus!
