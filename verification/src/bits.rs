//! Exact bit-level views of IEEE-754 binary64 values.
//!
//! A scalar is carried everywhere as its raw bit pattern in a `u64`.  The
//! functions here are ordinary verified code: negation and absolute value are
//! exact sign-bit operations, and `decode` / `encode` translate between a raw
//! bit pattern and an integer magnitude-and-exponent form, which is how finite
//! values cross the boundary to the software big-float library.

use vstd::prelude::*;
use vstd::arithmetic::power2::pow2;
use vstd::arithmetic::power2::lemma2_to64;
use vstd::arithmetic::power2::lemma2_to64_rest;
use vstd::arithmetic::power2::lemma_pow2_strictly_increases;
use vstd::arithmetic::power2::lemma_pow2_unfold;
use vstd::arithmetic::div_mod::lemma_div_is_ordered_by_denominator;

verus! {

/// Mask of the sign bit.
pub const SIGN_MASK: u64 = 0x8000_0000_0000_0000;
/// Mask of everything but the sign bit.
pub const ABS_MASK: u64 = 0x7FFF_FFFF_FFFF_FFFF;
/// Exponent field, all ones (infinity when the fraction is zero).
pub const EXP_MASK: u64 = 0x7FF0_0000_0000_0000;
/// The value 2^52, the weight of the lowest exponent-field bit.
pub const FRAC_UNIT: u64 = 0x0010_0000_0000_0000;
/// Bit pattern of 1.0.
pub const ONE_BITS: u64 = 0x3FF0_0000_0000_0000;
/// Bit pattern of -1.0.
pub const NEG_ONE_BITS: u64 = 0xBFF0_0000_0000_0000;
/// Bit pattern of 2.0.
pub const TWO_BITS: u64 = 0x4000_0000_0000_0000;
/// Bit pattern of 0.5.
pub const HALF_BITS: u64 = 0x3FE0_0000_0000_0000;
/// Bit pattern of 3.0.
pub const THREE_BITS: u64 = 0x4008_0000_0000_0000;
/// Bit pattern of 6.0.
pub const SIX_BITS: u64 = 0x4018_0000_0000_0000;
/// Bit pattern of +0.0.
pub const ZERO_BITS: u64 = 0x0000_0000_0000_0000;
/// Canonical quiet NaN bit pattern.
pub const NAN_BITS: u64 = 0x7FF8_0000_0000_0000;
/// Bit pattern of positive infinity.
pub const POS_INF_BITS: u64 = 0x7FF0_0000_0000_0000;
/// Bit pattern of negative infinity.
pub const NEG_INF_BITS: u64 = 0xFFF0_0000_0000_0000;

/// The bit pattern with the sign flipped: IEEE-754 negation is exactly this,
/// for every value class including zeros, infinities and NaNs.
pub open spec fn spec_neg_bits(b: u64) -> u64 {
    if b >= SIGN_MASK {
        (b - SIGN_MASK) as u64
    } else {
        (b + SIGN_MASK) as u64
    }
}

/// Negates a scalar given as a bit pattern by flipping its sign bit.
pub fn neg_bits(b: u64) -> (r: u64)
    ensures
        r == spec_neg_bits(b),
{
    if b >= SIGN_MASK {
        b - SIGN_MASK
    } else {
        b + SIGN_MASK
    }
}

/// The bit pattern with the sign cleared: IEEE-754 absolute value.
pub open spec fn spec_abs_bits(b: u64) -> u64 {
    if b >= SIGN_MASK {
        (b - SIGN_MASK) as u64
    } else {
        b
    }
}

/// Absolute value of a scalar given as a bit pattern.
pub fn abs_bits(b: u64) -> (r: u64)
    ensures
        r == spec_abs_bits(b),
{
    if b >= SIGN_MASK {
        b - SIGN_MASK
    } else {
        b
    }
}

/// Whether the bit pattern encodes a NaN.
pub open spec fn spec_is_nan_bits(b: u64) -> bool {
    spec_abs_bits(b) > EXP_MASK
}

/// Whether the bit pattern encodes an infinity.
pub open spec fn spec_is_inf_bits(b: u64) -> bool {
    spec_abs_bits(b) == EXP_MASK
}

/// The sign function used as the partial derivative of the absolute value:
/// -1.0 for negative values, +1.0 for positive values, 0.0 at either zero,
/// and NaN for NaN (the convention at zero is deliberate).
pub open spec fn spec_sign_bits(b: u64) -> u64 {
    if spec_is_nan_bits(b) {
        NAN_BITS
    } else if spec_abs_bits(b) == 0 {
        ZERO_BITS
    } else if b >= SIGN_MASK {
        NEG_ONE_BITS
    } else {
        ONE_BITS
    }
}

/// Sign of a scalar given as a bit pattern, as the bit pattern of
/// -1.0, 0.0, +1.0 or NaN.
pub fn sign_bits(b: u64) -> (r: u64)
    ensures
        r == spec_sign_bits(b),
{
    let a = abs_bits(b);
    if a > EXP_MASK {
        NAN_BITS
    } else if a == 0 {
        ZERO_BITS
    } else if b >= SIGN_MASK {
        NEG_ONE_BITS
    } else {
        ONE_BITS
    }
}

/// The IEEE-754 "less than" on two bit patterns: false if either is NaN,
/// the two zeros are equal, and otherwise the sign and the magnitude order
/// decide.
pub open spec fn spec_lt_bits(a: u64, b: u64) -> bool {
    if spec_is_nan_bits(a) || spec_is_nan_bits(b) {
        false
    } else if spec_abs_bits(a) == 0 && spec_abs_bits(b) == 0 {
        false
    } else if (a >= SIGN_MASK) != (b >= SIGN_MASK) {
        a >= SIGN_MASK
    } else if a < SIGN_MASK {
        a < b
    } else {
        a > b
    }
}

/// Compares two scalars given as bit patterns, as IEEE-754 `<` does.
pub fn lt_bits(a: u64, b: u64) -> (r: bool)
    ensures
        r == spec_lt_bits(a, b),
{
    let aa = abs_bits(a);
    let ba = abs_bits(b);
    if aa > EXP_MASK || ba > EXP_MASK {
        false
    } else if aa == 0 && ba == 0 {
        false
    } else if (a >= SIGN_MASK) != (b >= SIGN_MASK) {
        a >= SIGN_MASK
    } else if a < SIGN_MASK {
        a < b
    } else {
        a > b
    }
}

/// The sign-and-exponent bits: the top 12 bits of the pattern.
pub open spec fn spec_sef(b: u64) -> u64 {
    b / FRAC_UNIT
}

/// Whether the pattern's sign bit is set.
pub open spec fn spec_decode_neg(b: u64) -> bool {
    b >= SIGN_MASK
}

/// The integer magnitude of a finite value: `frac` for subnormals and zero,
/// `frac + 2^52` for normal values.
pub open spec fn spec_decode_mag(b: u64) -> u64 {
    let ef = if spec_decode_neg(b) {
        (spec_sef(b) - 2048) as u64
    } else {
        spec_sef(b)
    };
    if ef == 0 {
        b % FRAC_UNIT
    } else {
        (b % FRAC_UNIT + FRAC_UNIT) as u64
    }
}

/// The exponent of a finite value, shifted so that the encoded value is
/// `mag * 2^(exp - 64)`: subnormals use the fixed minimum exponent.
pub open spec fn spec_decode_exp(b: u64) -> i32 {
    let ef = if spec_decode_neg(b) {
        (spec_sef(b) - 2048) as u64
    } else {
        spec_sef(b)
    };
    if ef == 0 {
        -1010i32
    } else {
        (ef - 1011) as i32
    }
}

/// Splits a finite bit pattern into `(negative, magnitude, exponent)` with
/// value `(-1)^negative * magnitude * 2^(exponent - 64)`.
pub fn decode(b: u64) -> (r: (bool, u64, i32))
    requires
        !spec_is_nan_bits(b),
        !spec_is_inf_bits(b),
    ensures
        r.0 == spec_decode_neg(b),
        r.1 == spec_decode_mag(b),
        r.2 == spec_decode_exp(b),
{
    let sef: u64 = b / FRAC_UNIT;
    let neg = b >= SIGN_MASK;
    let ef: u64 = if neg {
        sef - 2048
    } else {
        sef
    };
    let frac: u64 = b % FRAC_UNIT;
    if ef == 0 {
        (neg, frac, -1010)
    } else {
        (neg, frac + FRAC_UNIT, (ef as i64 - 1011) as i32)
    }
}

/// One normalisation step count: doubles the magnitude until its top bit is
/// set, lowering the exponent in step, so the represented value is unchanged.
pub open spec fn spec_normalize(mag: u64, e: int) -> (u64, int)
    decreases u64::MAX - mag,
{
    if mag == 0 {
        (0u64, e)
    } else if mag < SIGN_MASK {
        spec_normalize((mag * 2) as u64, e - 1)
    } else {
        (mag, e)
    }
}

/// Rounds `m / d` to the nearest integer, ties to even; `sticky` records
/// that the true value lies just above `m`, which turns an apparent tie
/// into a round up.
pub open spec fn spec_round_even(m: u64, d: u64, sticky: bool) -> u64
    recommends
        d >= 2,
{
    let q = m / d;
    let r = m % d;
    let h = d / 2;
    if r > h || (r == h && (sticky || q % 2 == 1)) {
        (q + 1) as u64
    } else {
        q
    }
}

/// The bit pattern assembled from a rounded-and-normalised magnitude and
/// exponent, covering the normal, subnormal, overflow and zero cases.
pub open spec fn spec_assemble(neg: bool, mag: u64, e: int, sticky: bool) -> u64 {
    let sign: u64 = if neg {
        SIGN_MASK
    } else {
        0
    };
    if mag == 0 {
        sign
    } else {
        let m53 = spec_round_even(mag, 2048, sticky);
        let (m, e2): (u64, int) = if m53 == 0x20_0000_0000_0000 {
            (0x10_0000_0000_0000u64, e + 1)
        } else {
            (m53, e)
        };
        let biased = e2 + 1022;
        if biased >= 2047 {
            (sign + EXP_MASK) as u64
        } else if biased >= 1 {
            (sign + biased * FRAC_UNIT + (m - FRAC_UNIT)) as u64
        } else {
            let shift = 1 - biased;
            if shift > 54 {
                sign
            } else {
                (sign + spec_round_even(m, pow2(shift as nat) as u64, false)) as u64
            }
        }
    }
}

/// The full encoding of `(-1)^neg * mag * 2^(exp - 64)` as the nearest
/// (ties-to-even) IEEE-754 binary64 bit pattern, where `sticky` records
/// that the true magnitude lies just above `mag`.
pub open spec fn spec_encode(neg: bool, mag: u64, exp: i64, sticky: bool) -> u64 {
    let (m, e) = spec_normalize(mag, exp as int);
    spec_assemble(neg, m, e, sticky)
}

/// Computes 2^k for a small exponent.
fn pow2_exec(k: u64) -> (r: u64)
    requires
        k < 64,
    ensures
        r == pow2(k as nat),
{
    proof {
        lemma2_to64();
    }
    let mut r: u64 = 1;
    let mut i: u64 = 0;
    while i < k
        invariant
            i <= k,
            k < 64,
            r == pow2(i as nat),
        decreases k - i,
    {
        proof {
            lemma2_to64();
            lemma2_to64_rest();
            lemma_pow2_unfold((i + 1) as nat);
            lemma_pow2_strictly_increases((i + 1) as nat, 64);
        }
        r = r * 2;
        i = i + 1;
    }
    r
}

/// Rounds `m / d` to the nearest integer, ties to even, honouring a
/// sticky bit.
fn round_even(m: u64, d: u64, sticky: bool) -> (r: u64)
    requires
        d >= 2,
    ensures
        r == spec_round_even(m, d, sticky),
{
    proof {
        lemma_div_is_ordered_by_denominator(m as int, 2, d as int);
    }
    let q = m / d;
    let r = m % d;
    let h = d / 2;
    if r > h || (r == h && (sticky || q % 2 == 1)) {
        q + 1
    } else {
        q
    }
}

/// Packs `(-1)^neg * mag * 2^(exp - 64)` into the nearest (ties-to-even)
/// IEEE-754 binary64 bit pattern; magnitudes too large round up to infinity
/// and magnitudes too small round down to a signed zero.
pub fn encode(neg: bool, mag: u64, exp: i64, sticky: bool) -> (r: u64)
    requires
        -0x1_0000_0000 <= exp <= 0x1_0000_0000,
    ensures
        r == spec_encode(neg, mag, exp, sticky),
{
    let sign: u64 = if neg {
        SIGN_MASK
    } else {
        0
    };
    if mag == 0 {
        return sign;
    }
    let mut m: u64 = mag;
    let mut e: i64 = exp;
    let mut j: u64 = 0;
    proof {
        lemma2_to64();
    }
    while j < 63
        invariant
            m > 0,
            j <= 63,
            -0x1_0000_0000 <= exp <= 0x1_0000_0000,
            exp - j <= e <= exp,
            m < SIGN_MASK ==> m >= pow2(j as nat),
            spec_normalize(m, e as int) == spec_normalize(mag, exp as int),
        decreases 63 - j,
    {
        if m < SIGN_MASK {
            proof {
                lemma2_to64();
                lemma2_to64_rest();
                lemma_pow2_unfold((j + 1) as nat);
                assert(spec_normalize(m, e as int) == spec_normalize((m * 2) as u64, e - 1));
            }
            m = m * 2;
            e = e - 1;
        }
        j = j + 1;
    }
    proof {
        lemma2_to64();
        lemma2_to64_rest();
    }
    assert(m >= SIGN_MASK);
    assert(spec_normalize(m, e as int) == (m, e as int));
    let m53 = round_even(m, 2048, sticky);
    if m53 == 0x20_0000_0000_0000 {
        m = 0x10_0000_0000_0000;
        e = e + 1;
    } else {
        m = m53;
    }
    let biased: i64 = e + 1022;
    if biased >= 2047 {
        sign + EXP_MASK
    } else if biased >= 1 {
        sign + (biased as u64) * FRAC_UNIT + (m - FRAC_UNIT)
    } else {
        let shift: i64 = 1 - biased;
        if shift > 54 {
            sign
        } else {
            proof {
                lemma2_to64();
                if (shift as nat) != 64 {
                    lemma_pow2_strictly_increases(shift as nat, 64);
                }
            }
            sign + round_even(m, pow2_exec(shift as u64), false)
        }
    }
}

} // verus!
