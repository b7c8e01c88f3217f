//! Single-precision numbers, held as their IEEE 754 bit patterns.
//!
//! A pattern has a sign bit, eight exponent bits and twenty-three fraction
//! bits. Unless the exponent bits are all ones, it denotes the number
//! `±mantissa · 2^scale`; this module says which integer such a number
//! narrows to, and computes it with integer arithmetic alone.

use vstd::arithmetic::power2::{lemma2_to64, lemma_pow2_pos, lemma_pow2_strictly_increases, pow2};
use vstd::bits::{lemma_u32_shl_is_mul, lemma_u32_shr_is_div};
use vstd::prelude::*;

verus! {

/// Whether the sign bit is set.
pub open spec fn is_negative(bits: u32) -> bool {
    bits >= 0x8000_0000
}

/// The eight exponent bits, as a number below 256.
pub open spec fn exponent(bits: u32) -> int {
    (bits as int / 0x80_0000) % 256
}

/// The twenty-three fraction bits, as a number below 2^23.
pub open spec fn fraction(bits: u32) -> int {
    bits as int % 0x80_0000
}

/// Whether the pattern denotes no number at all.
pub open spec fn is_nan(bits: u32) -> bool {
    exponent(bits) == 255 && fraction(bits) != 0
}

/// Whether the pattern denotes positive or negative infinity.
pub open spec fn is_infinite(bits: u32) -> bool {
    exponent(bits) == 255 && fraction(bits) == 0
}

/// The integer that is scaled by a power of two to give the magnitude.
/// Normal numbers carry an implicit leading one, subnormal numbers do not.
pub open spec fn mantissa(bits: u32) -> int {
    if exponent(bits) == 0 {
        fraction(bits)
    } else {
        0x80_0000 + fraction(bits)
    }
}

/// The power of two by which the mantissa is scaled.
pub open spec fn scale(bits: u32) -> int {
    if exponent(bits) == 0 {
        -149
    } else {
        exponent(bits) - 150
    }
}

/// The magnitude `mantissa · 2^scale` of a finite number, rounded down to an
/// integer.
pub open spec fn whole_part(bits: u32) -> int {
    if scale(bits) >= 0 {
        mantissa(bits) * pow2(scale(bits) as nat)
    } else {
        mantissa(bits) / (pow2((-scale(bits)) as nat) as int)
    }
}

/// The 32-bit signed integer that the number narrows to: its fractional part
/// is discarded, a magnitude beyond the integer range (an infinity too)
/// becomes the nearest bound of the range, and a pattern that is no number
/// becomes zero.
pub open spec fn truncated(bits: u32) -> int {
    if is_nan(bits) {
        0
    } else if exponent(bits) >= 158 {
        if is_negative(bits) {
            i32::MIN as int
        } else {
            i32::MAX as int
        }
    } else if is_negative(bits) {
        -whole_part(bits)
    } else {
        whole_part(bits)
    }
}

/// Narrows a single-precision number, given by its bit pattern, to a 32-bit
/// signed integer.
pub fn truncate(bits: u32) -> (whole: i32)
    ensures
        whole == truncated(bits),
{
    let exponent: u32 = (bits / 0x80_0000) % 256;
    let fraction: u32 = bits % 0x80_0000;
    let negative: bool = bits >= 0x8000_0000;
    if exponent == 255 && fraction != 0 {
        return 0;
    }
    if exponent >= 158 {
        return if negative {
            i32::MIN
        } else {
            i32::MAX
        };
    }
    if exponent < 127 {
        proof {
            lemma_small_magnitude(bits);
        }
        return 0;
    }
    let significand: u32 = 0x80_0000 + fraction;
    let magnitude: u32 = if exponent < 150 {
        let shift: u32 = 150 - exponent;
        proof {
            lemma_u32_shr_is_div(significand, shift);
        }
        significand >> shift
    } else {
        let shift: u32 = exponent - 150;
        proof {
            lemma_scaled_up_fits(significand as int, shift as nat);
            lemma_u32_shl_is_mul(significand, shift);
        }
        significand << shift
    };
    proof {
        lemma_whole_part_fits(bits);
    }
    if negative {
        -(magnitude as i32)
    } else {
        magnitude as i32
    }
}

/// A mantissa scaled up by at most seven binary places stays below 2^31.
proof fn lemma_scaled_up_fits(significand: int, shift: nat)
    requires
        0 <= significand < 0x100_0000,
        shift <= 7,
    ensures
        0 <= significand * pow2(shift) < 0x8000_0000,
{
    lemma2_to64();
    if shift < 7 {
        lemma_pow2_strictly_increases(shift, 7);
    }
    lemma_pow2_pos(shift);
    assert(0 <= significand * pow2(shift) <= 0xff_ffff * 128) by (nonlinear_arith)
        requires
            0 <= significand <= 0xff_ffff,
            0 < pow2(shift) <= 128,
    ;
}

/// A number whose exponent bits are below 127 has a magnitude below one.
proof fn lemma_small_magnitude(bits: u32)
    requires
        exponent(bits) < 127,
    ensures
        whole_part(bits) == 0,
{
    let places = (-scale(bits)) as nat;
    lemma2_to64();
    if places > 24 {
        lemma_pow2_strictly_increases(24, places);
    }
    assert(pow2(places) >= 0x100_0000);
    assert(mantissa(bits) / (pow2(places) as int) == 0) by (nonlinear_arith)
        requires
            0 <= mantissa(bits) < 0x100_0000,
            pow2(places) >= 0x100_0000,
    ;
}

/// The whole part of a number with exponent bits below 158 lies in the range
/// of a 32-bit signed integer.
pub proof fn lemma_whole_part_fits(bits: u32)
    requires
        exponent(bits) < 158,
    ensures
        0 <= whole_part(bits) < 0x8000_0000,
{
    if scale(bits) >= 0 {
        lemma_scaled_up_fits(mantissa(bits), scale(bits) as nat);
    } else {
        let divisor = pow2((-scale(bits)) as nat) as int;
        lemma_pow2_pos((-scale(bits)) as nat);
        assert(0 <= mantissa(bits) / divisor <= mantissa(bits)) by (nonlinear_arith)
            requires
                0 <= mantissa(bits),
                divisor >= 1,
        ;
    }
}

/// Every pattern narrows to a 32-bit signed integer.
pub proof fn lemma_truncated_fits(bits: u32)
    ensures
        i32::MIN <= truncated(bits) <= i32::MAX,
{
    if exponent(bits) < 158 {
        lemma_whole_part_fits(bits);
    }
}

/// Narrowing discards the fractional part and nothing else: on a finite
/// number of magnitude below 2^31 the result has the sign of the number, and
/// its magnitude `w` is the one integer with `w <= mantissa · 2^scale < w + 1`.
/// The inequality is stated with both sides multiplied by `2^-scale` where
/// the scale is negative.
pub proof fn lemma_truncation_is_toward_zero(bits: u32)
    requires
        exponent(bits) < 158,
    ensures
        is_negative(bits) ==> -0x8000_0000 < truncated(bits) <= 0,
        !is_negative(bits) ==> 0 <= truncated(bits) < 0x8000_0000,
        truncated(bits) == whole_part(bits) || truncated(bits) == -whole_part(bits),
        scale(bits) >= 0 ==> whole_part(bits) == mantissa(bits) * pow2(scale(bits) as nat),
        scale(bits) < 0 ==> whole_part(bits) * pow2((-scale(bits)) as nat) <= mantissa(bits) < (
        whole_part(bits) + 1) * pow2((-scale(bits)) as nat),
{
    lemma_whole_part_fits(bits);
    if scale(bits) < 0 {
        let divisor = pow2((-scale(bits)) as nat) as int;
        let m = mantissa(bits);
        lemma_pow2_pos((-scale(bits)) as nat);
        assert((m / divisor) * divisor <= m < (m / divisor + 1) * divisor) by (nonlinear_arith)
            requires
                0 <= m,
                divisor >= 1,
        ;
    }
}

} // verus!
