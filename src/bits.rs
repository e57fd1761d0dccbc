//! Reading single-precision numbers from their IEEE-754 bit patterns.
//!
//! A finite number is an integer significand over a power of two; the spec
//! functions here take a pattern apart into those two integers.
use vstd::arithmetic::power2::{
    lemma2_to64, lemma2_to64_rest, lemma_pow2_pos, lemma_pow2_strictly_increases, lemma_pow2_unfold,
    pow2,
};
use vstd::prelude::*;

verus! {

/// Bit pattern of the single-precision number `1.0`.
pub const ONE_BITS: u32 = 0x3F80_0000;

/// Bit pattern of the sign of a single-precision number.
pub const SIGN_BIT: u32 = 0x8000_0000;

/// Bit pattern of positive infinity; any magnitude from it on is infinite or not a number.
pub const INFINITY_BITS: u32 = 0x7F80_0000;

/// One unit of the biased exponent field: `2^23`, the implicit leading bit.
pub const FRACTION_SPAN: u32 = 0x80_0000;

/// The number without its sign.
pub open spec fn magnitude(bits: u32) -> nat {
    (bits % SIGN_BIT) as nat
}

/// The biased exponent field: zero for zeros and subnormal numbers.
pub open spec fn biased_exponent(bits: u32) -> nat {
    magnitude(bits) / (FRACTION_SPAN as nat)
}

/// The integer significand: the number is `significand / 2^scale_exponent`.
pub open spec fn significand(bits: u32) -> nat {
    if biased_exponent(bits) == 0 {
        magnitude(bits) % (FRACTION_SPAN as nat)
    } else {
        (magnitude(bits) % (FRACTION_SPAN as nat) + FRACTION_SPAN) as nat
    }
}

/// The power of two under the significand, for a biased exponent of at most
/// 150 (subnormal numbers share the largest one).
pub open spec fn scale_exponent(bits: u32) -> nat {
    if biased_exponent(bits) == 0 {
        149
    } else {
        (150 - biased_exponent(bits)) as nat
    }
}

/// Computes `2^e` for a small `e`.
pub fn pow2_u64(e: u32) -> (r: u64)
    requires
        e <= 53,
    ensures
        r == pow2(e as nat),
        1 <= r <= 0x20_0000_0000_0000u64,
{
    proof {
        lemma2_to64();
        lemma2_to64_rest();
    }
    let mut r: u64 = 1;
    let mut i: u32 = 0;
    while i < e
        invariant
            i <= e <= 53,
            r == pow2(i as nat),
            pow2(53) == 0x20_0000_0000_0000u64,
        decreases e - i,
    {
        proof {
            lemma_pow2_unfold((i + 1) as nat);
            if i + 1 < 53 {
                lemma_pow2_strictly_increases((i + 1) as nat, 53);
            }
        }
        r = r * 2;
        i = i + 1;
    }
    proof {
        lemma_pow2_pos(e as nat);
        if e < 53 {
            lemma_pow2_strictly_increases(e as nat, 53);
        }
    }
    r
}

} // verus!
