//! Bit-pattern kernels for the binary32 approximation routines.
//!
//! The square-root, reciprocal-square-root, cube-root and logarithm
//! routines each begin by reinterpreting a binary32 value as its 32-bit
//! pattern (sign bit, 8-bit biased exponent, 23-bit mantissa) and doing a
//! little integer arithmetic on that pattern: a calibrated initial guess
//! for the Newton-Raphson refinements, or a split of the pattern into a
//! normalized mantissa and an unbiased exponent. Those integer steps are
//! gathered here with exact contracts; the callers only reinterpret the
//! patterns on the way in and out.

use vstd::prelude::*;

verus! {

/// Bias of the binary32 exponent field.
pub const EXPONENT_BIAS: u32 = 127;

/// Mask of the 23 mantissa bits of a binary32 pattern.
pub const MANTISSA_MASK: u32 = 0x007f_ffff;

/// Pattern of 1.0: sign clear, exponent field equal to the bias, mantissa
/// field zero. Also the exponent part forced onto a mantissa renormalized
/// into `[1, 2)`.
pub const ONE_PATTERN: u32 = 0x3f80_0000;

/// Calibrated constant of the reciprocal-square-root initial guess.
pub const RSQRT_MAGIC: u32 = 0x5f37_59df;

/// Calibrated constant of the cube-root initial guess.
pub const CBRT_MAGIC: u32 = 0x2a50_8f8a;

/// Initial guess, as a bit pattern, for the reciprocal square root of the
/// positive value whose pattern is `bits`: the pattern is halved (which
/// halves the exponent, roughly negating it around the bias after the
/// subtraction) and taken away from the calibrated constant. The guess
/// feeds the Newton-Raphson refinements of both the square-root and the
/// reciprocal-square-root routines.
///
/// A positive value has its sign bit clear, so the halved pattern stays
/// below the constant and the subtraction cannot underflow.
pub fn rsqrt_seed(bits: u32) -> (r: u32)
    requires
        bits < 0x8000_0000,
    ensures
        r == RSQRT_MAGIC - (bits >> 1),
{
    proof {
        assert((bits >> 1) <= 0x3fff_ffff) by (bit_vector)
            requires
                bits < 0x8000_0000,
        ;
    }
    RSQRT_MAGIC - (bits >> 1)
}

/// Initial guess, as a bit pattern, for the cube root of the value whose
/// pattern is `bits`: a third of the pattern (which roughly divides the
/// exponent by three) plus the calibrated constant. The sum fits in 32
/// bits for every pattern.
pub fn cbrt_seed(bits: u32) -> (r: u32)
    ensures
        r == bits / 3 + CBRT_MAGIC,
{
    proof {
        assert(bits / 3 + 0x2a50_8f8a <= 0xffff_ffff) by (bit_vector);
    }
    bits / 3 + CBRT_MAGIC
}

/// Unbiased exponent of the binary32 pattern `bits`: the 8-bit exponent
/// field, minus the bias. The result always lies in `[-127, 128]`.
pub fn unbiased_exponent(bits: u32) -> (r: i32)
    ensures
        r == ((bits >> 23) & 0xff) - EXPONENT_BIAS,
        -127 <= r && r <= 128,
{
    proof {
        assert(((bits >> 23) & 0xff) <= 255) by (bit_vector);
    }
    ((bits >> 23) & 0xff) as i32 - 127
}

/// 2^k as an integer, computed by a left shift: the integer scale factor
/// of the power-of-two split in the base-2 exponential. The 128-bit
/// result covers the whole clamped exponent range of that routine (up to
/// 2^127 in magnitude), and is never zero, so the reciprocal taken of it
/// on the negative-exponent path divides by a nonzero value.
pub fn pow2_shift(k: u32) -> (r: u128)
    requires
        k < 128,
    ensures
        r == 1u128 << k,
        r >= 1,
{
    proof {
        assert((1u128 << k) >= 1) by (bit_vector)
            requires
                k < 128,
        ;
    }
    1u128 << k
}

/// Mantissa of the binary32 pattern `bits`, renormalized into `[1, 2)`:
/// the mantissa field is kept, the exponent field is forced to the bias,
/// and the sign is cleared. The result is therefore always a pattern
/// between that of 1.0 (inclusive) and that of 2.0 (exclusive), whatever
/// `bits` holds.
pub fn normalized_mantissa(bits: u32) -> (r: u32)
    ensures
        r == (bits & MANTISSA_MASK) | ONE_PATTERN,
        ONE_PATTERN <= r && r <= 0x3fff_ffff,
{
    proof {
        assert(0x3f80_0000 <= ((bits & 0x007f_ffff) | 0x3f80_0000)
            && ((bits & 0x007f_ffff) | 0x3f80_0000) <= 0x3fff_ffff) by (bit_vector);
    }
    (bits & MANTISSA_MASK) | ONE_PATTERN
}

} // verus!
