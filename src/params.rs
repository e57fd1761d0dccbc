//! Parameter defaults and the integer-valued parameters that the host derives
//! from raw slider or text input.
//!
//! Raw inputs are taken as bit patterns (`f32::to_bits`, `f64::to_bits`) and
//! decided exactly.
use crate::bits::{
    biased_exponent, magnitude, pow2_u64, scale_exponent, significand, FRACTION_SPAN,
    INFINITY_BITS, SIGN_BIT,
};
use vstd::arithmetic::power2::{
    lemma2_to64, lemma2_to64_rest, lemma_pow2_pos, lemma_pow2_strictly_increases,
    lemma_pow2_unfold, pow2,
};
use vstd::prelude::*;

verus! {

/// Seed used when the host supplies none that can be used.
pub const DEFAULT_SEED: u32 = 1337;

/// Number of tectonic plates used by default.
pub const DEFAULT_PLATE_COUNT: u32 = 15;

/// Fewest tectonic plates.
pub const MIN_PLATE_COUNT: u32 = 3;

/// Most tectonic plates.
pub const MAX_PLATE_COUNT: u32 = 100;

/// Bit pattern of the double-precision positive infinity. Every pattern from
/// it on is infinite, not a number, or carries the sign.
pub const F64_INFINITY_BITS: u64 = 0x7FF0_0000_0000_0000;

/// One unit of the double-precision biased exponent field: `2^52`.
pub const F64_FRACTION_SPAN: u64 = 0x10_0000_0000_0000;

/// The biased exponent field of a double.
pub open spec fn f64_exponent(bits: u64) -> nat {
    (bits as nat % 0x8000_0000_0000_0000) / (F64_FRACTION_SPAN as nat)
}

/// The integer significand of a double: the number is `significand / 2^f64_scale`.
pub open spec fn f64_significand(bits: u64) -> nat {
    if f64_exponent(bits) == 0 {
        bits as nat % (F64_FRACTION_SPAN as nat)
    } else {
        (bits as nat % (F64_FRACTION_SPAN as nat) + F64_FRACTION_SPAN) as nat
    }
}

/// The power of two under the significand of a double; at most zero for
/// numbers of `2^52` and more.
pub open spec fn f64_scale(bits: u64) -> int {
    if f64_exponent(bits) == 0 {
        1074
    } else {
        1075 - f64_exponent(bits)
    }
}

/// The seed for a raw double: the default for an infinite number, not a number
/// or any number with its sign set (`-0.0` included); otherwise the number
/// rounded down, capped at `u32::MAX`.
pub open spec fn seed_of(bits: u64) -> int {
    if bits >= F64_INFINITY_BITS {
        DEFAULT_SEED as int
    } else if f64_scale(bits) <= 0 {
        u32::MAX as int
    } else {
        let whole = f64_significand(bits) / pow2(f64_scale(bits) as nat);
        if whole > u32::MAX { u32::MAX as int } else { whole as int }
    }
}

/// `v` held to `[MIN_PLATE_COUNT, MAX_PLATE_COUNT]`.
pub open spec fn clamp_plate_count(v: int) -> int {
    if v < MIN_PLATE_COUNT {
        MIN_PLATE_COUNT as int
    } else if v > MAX_PLATE_COUNT {
        MAX_PLATE_COUNT as int
    } else {
        v
    }
}

/// The plate count for a raw single: the default for an infinite number or
/// not a number; otherwise the number rounded half away from zero and held to
/// `[MIN_PLATE_COUNT, MAX_PLATE_COUNT]`. Negative numbers and zeros round to
/// at most zero; numbers of `128` and more (biased exponent `134` on) to more
/// than the most.
pub open spec fn plate_count_of(bits: u32) -> int {
    if magnitude(bits) >= INFINITY_BITS {
        DEFAULT_PLATE_COUNT as int
    } else if bits >= SIGN_BIT {
        MIN_PLATE_COUNT as int
    } else if biased_exponent(bits) >= 134 {
        MAX_PLATE_COUNT as int
    } else {
        let k = scale_exponent(bits);
        clamp_plate_count(((2 * significand(bits) + pow2(k)) / pow2(k + 1)) as int)
    }
}

/// The default seed.
pub fn deterministic_seed() -> (r: u32)
    ensures
        r == DEFAULT_SEED,
{
    DEFAULT_SEED
}

/// The default plate count.
pub fn normalized_plate_count() -> (r: u32)
    ensures
        r == DEFAULT_PLATE_COUNT,
{
    DEFAULT_PLATE_COUNT
}

/// The seed for the bit pattern of a raw double: see `seed_of`.
pub fn deterministic_seed_from_input(raw_bits: u64) -> (r: u32)
    ensures
        r == seed_of(raw_bits),
{
    if raw_bits >= F64_INFINITY_BITS {
        return DEFAULT_SEED;
    }
    let exponent: u64 = raw_bits / F64_FRACTION_SPAN;
    let fraction: u64 = raw_bits % F64_FRACTION_SPAN;
    assert(exponent == f64_exponent(raw_bits));
    if exponent >= 1075 {
        return u32::MAX;
    }
    let sig: u64;
    let scale: u64;
    if exponent == 0 {
        sig = fraction;
        scale = 1074;
    } else {
        sig = fraction + F64_FRACTION_SPAN;
        scale = 1075 - exponent;
    }
    assert(sig == f64_significand(raw_bits) && scale == f64_scale(raw_bits));
    if scale > 53 {
        proof {
            lemma2_to64_rest();
            lemma_pow2_strictly_increases(53, scale as nat);
            let d = pow2(scale as nat) as int;
            assert(sig as int / d == 0) by (nonlinear_arith)
                requires
                    0 <= sig < d,
            ;
        }
        return 0;
    }
    let whole: u64 = sig / pow2_u64(scale as u32);
    if whole > u32::MAX as u64 {
        u32::MAX
    } else {
        whole as u32
    }
}

/// The plate count for the bit pattern of a raw single: see `plate_count_of`.
pub fn normalized_plate_count_from_slider(raw_bits: u32) -> (r: u32)
    ensures
        r == plate_count_of(raw_bits),
        MIN_PLATE_COUNT <= r <= MAX_PLATE_COUNT,
{
    let magnitude: u32 = raw_bits % SIGN_BIT;
    if magnitude >= INFINITY_BITS {
        return DEFAULT_PLATE_COUNT;
    }
    if raw_bits >= SIGN_BIT {
        return MIN_PLATE_COUNT;
    }
    let exponent: u32 = magnitude / FRACTION_SPAN;
    if exponent >= 134 {
        return MAX_PLATE_COUNT;
    }
    let fraction: u32 = magnitude % FRACTION_SPAN;
    let sig: u32;
    let scale: u32;
    if exponent == 0 {
        sig = fraction;
        scale = 149;
    } else {
        sig = fraction + FRACTION_SPAN;
        scale = 150 - exponent;
    }
    assert(sig == significand(raw_bits) && scale == scale_exponent(raw_bits));
    assert(sig < 0x100_0000);
    proof {
        lemma_pow2_unfold(scale as nat + 1);
        lemma_pow2_pos(scale as nat);
    }
    let rounded: u64;
    if scale > 30 {
        proof {
            lemma2_to64();
            lemma_pow2_strictly_increases(25, scale as nat);
            let d = pow2(scale as nat) as int;
            assert((2 * sig as int + d) / (2 * d) == 0) by (nonlinear_arith)
                requires
                    0 <= sig < 0x100_0000,
                    d > 0x200_0000,
            ;
        }
        rounded = 0;
    } else {
        rounded = (2 * sig as u64 + pow2_u64(scale)) / pow2_u64(scale + 1);
    }
    if rounded < MIN_PLATE_COUNT as u64 {
        MIN_PLATE_COUNT
    } else if rounded > MAX_PLATE_COUNT as u64 {
        MAX_PLATE_COUNT
    } else {
        rounded as u32
    }
}

} // verus!
