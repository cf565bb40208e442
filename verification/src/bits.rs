//! IEEE-754 binary64 bit-pattern model.
//!
//! A `u64` stands for the bit pattern of one double-precision lane: 1 sign
//! bit, 11 exponent bits, 52 fraction bits. Classification, ordering, sign
//! manipulation and the power-of-two reconstruction used by the exp2 kernel
//! are exact integer logic on these patterns, so they are verified here.

use vstd::prelude::*;

verus! {

/// Mask of the sign bit.
pub const SIGN_MASK: u64 = 0x8000_0000_0000_0000;

/// Mask of the 11 exponent bits.
pub const EXP_MASK: u64 = 0x7FF0_0000_0000_0000;

/// Mask of the 52 fraction bits.
pub const FRAC_MASK: u64 = 0x000F_FFFF_FFFF_FFFF;

/// Mask of everything but the sign bit (the magnitude).
pub const MAG_MASK: u64 = 0x7FFF_FFFF_FFFF_FFFF;

/// Bit pattern of positive infinity.
pub const POS_INF_BITS: u64 = 0x7FF0_0000_0000_0000;

/// Bit pattern of negative infinity.
pub const NEG_INF_BITS: u64 = 0xFFF0_0000_0000_0000;

/// Bit pattern of the canonical quiet NaN (the value `f64::NAN` denotes).
pub const QNAN_BITS: u64 = 0x7FF8_0000_0000_0000;

/// Bit pattern of positive zero.
pub const POS_ZERO_BITS: u64 = 0x0000_0000_0000_0000;

/// Bit pattern of negative zero.
pub const NEG_ZERO_BITS: u64 = 0x8000_0000_0000_0000;

/// Bit pattern of 1.0.
pub const ONE_BITS: u64 = 0x3FF0_0000_0000_0000;

/// The sign field: 0 for positive patterns, 1 for negative ones.
pub open spec fn sign_field(b: u64) -> u64 {
    b >> 63
}

/// The biased 11-bit exponent field.
pub open spec fn exp_field(b: u64) -> u64 {
    (b >> 52) & 0x7FF
}

/// The 52-bit fraction field.
pub open spec fn frac_field(b: u64) -> u64 {
    b & FRAC_MASK
}

/// The magnitude: the pattern with its sign bit cleared.
pub open spec fn mag_bits(b: u64) -> u64 {
    b & MAG_MASK
}

/// A NaN of either sign: exponent all ones, fraction nonzero.
pub open spec fn is_nan_bits(b: u64) -> bool {
    exp_field(b) == 0x7FF && frac_field(b) != 0
}

/// An infinity of either sign: exponent all ones, fraction zero.
pub open spec fn is_inf_bits(b: u64) -> bool {
    exp_field(b) == 0x7FF && frac_field(b) == 0
}

/// A finite value (zero, subnormal or normal).
pub open spec fn is_finite_bits(b: u64) -> bool {
    exp_field(b) != 0x7FF
}

/// A zero of either sign.
pub open spec fn is_zero_bits(b: u64) -> bool {
    mag_bits(b) == 0
}

/// The value a pattern stands for, as a signed magnitude on the integer
/// line. IEEE-754 ordering of two non-NaN doubles is exactly the ordering
/// of these keys; both zeros share the key 0.
pub open spec fn float_key(b: u64) -> int {
    if sign_field(b) == 1 {
        -(mag_bits(b) as int)
    } else {
        mag_bits(b) as int
    }
}

/// IEEE-754 `<` on bit patterns: false whenever either side is NaN.
pub open spec fn ieee_lt_bits(a: u64, b: u64) -> bool {
    &&& !is_nan_bits(a)
    &&& !is_nan_bits(b)
    &&& float_key(a) < float_key(b)
}

/// IEEE-754 `<=` on bit patterns: false whenever either side is NaN.
pub open spec fn ieee_le_bits(a: u64, b: u64) -> bool {
    &&& !is_nan_bits(a)
    &&& !is_nan_bits(b)
    &&& float_key(a) <= float_key(b)
}

/// Field values of the named constant patterns.
pub proof fn lemma_const_fields()
    by (bit_vector)
    ensures
        sign_field(POS_INF_BITS) == 0 && exp_field(POS_INF_BITS) == 0x7FF && frac_field(
            POS_INF_BITS,
        ) == 0 && mag_bits(POS_INF_BITS) == POS_INF_BITS,
        sign_field(NEG_INF_BITS) == 1 && exp_field(NEG_INF_BITS) == 0x7FF && frac_field(
            NEG_INF_BITS,
        ) == 0 && mag_bits(NEG_INF_BITS) == POS_INF_BITS,
        sign_field(QNAN_BITS) == 0 && exp_field(QNAN_BITS) == 0x7FF && frac_field(QNAN_BITS) != 0,
        sign_field(POS_ZERO_BITS) == 0 && exp_field(POS_ZERO_BITS) == 0 && frac_field(
            POS_ZERO_BITS,
        ) == 0 && mag_bits(POS_ZERO_BITS) == 0,
        sign_field(NEG_ZERO_BITS) == 1 && exp_field(NEG_ZERO_BITS) == 0 && frac_field(
            NEG_ZERO_BITS,
        ) == 0 && mag_bits(NEG_ZERO_BITS) == 0,
        sign_field(ONE_BITS) == 0 && exp_field(ONE_BITS) == 0x3FF && frac_field(ONE_BITS) == 0
            && mag_bits(ONE_BITS) == ONE_BITS,
{
}

/// Whether the pattern is a NaN.
pub fn is_nan(b: u64) -> (r: bool)
    ensures
        r == is_nan_bits(b),
{
    (b >> 52) & 0x7FF == 0x7FF && b & 0x000F_FFFF_FFFF_FFFF != 0
}

/// Whether the pattern is an infinity of either sign.
pub fn is_inf(b: u64) -> (r: bool)
    ensures
        r == is_inf_bits(b),
{
    (b >> 52) & 0x7FF == 0x7FF && b & 0x000F_FFFF_FFFF_FFFF == 0
}

/// Whether the pattern is finite.
pub fn is_finite(b: u64) -> (r: bool)
    ensures
        r == is_finite_bits(b),
{
    (b >> 52) & 0x7FF != 0x7FF
}

/// Whether the pattern is a zero of either sign.
pub fn is_zero(b: u64) -> (r: bool)
    ensures
        r == is_zero_bits(b),
{
    b & 0x7FFF_FFFF_FFFF_FFFF == 0
}

/// The sign bit as 0 or 1.
pub fn sign_bit(b: u64) -> (r: u64)
    ensures
        r == sign_field(b),
{
    b >> 63
}

/// The biased 11-bit exponent field.
pub fn biased_exponent(b: u64) -> (r: u64)
    ensures
        r == exp_field(b),
{
    (b >> 52) & 0x7FF
}

/// The unbiased exponent of a pattern: the exponent field less the bias.
/// For a normal pattern this is the power of two of the leading digit; the
/// getexp step of the log2 kernel.
pub fn unbiased_exponent(b: u64) -> (r: i64)
    ensures
        r == exp_field(b) - 1023,
{
    proof {
        assert((b >> 52) & 0x7FF <= 0x7FF) by (bit_vector);
    }
    ((b >> 52) & 0x7FF) as i64 - 1023
}

/// The pattern of a normal value's mantissa normalized into `[1, 2)`: the
/// fraction field under an exponent of zero, positive sign; the getmant
/// step of the log2 kernel.
pub fn mantissa_bits(b: u64) -> (r: u64)
    ensures
        r == (b & 0x000F_FFFF_FFFF_FFFF) | ONE_BITS,
        sign_field(r) == 0,
        exp_field(r) == 0x3FF,
        frac_field(r) == frac_field(b),
{
    proof {
        assert(((b & 0x000F_FFFF_FFFF_FFFF) | 0x3FF0_0000_0000_0000) >> 63 == 0 && (((b
            & 0x000F_FFFF_FFFF_FFFF) | 0x3FF0_0000_0000_0000) >> 52) & 0x7FF == 0x3FF && ((b
            & 0x000F_FFFF_FFFF_FFFF) | 0x3FF0_0000_0000_0000) & 0x000F_FFFF_FFFF_FFFF == b
            & 0x000F_FFFF_FFFF_FFFF) by (bit_vector);
    }
    (b & 0x000F_FFFF_FFFF_FFFF) | ONE_BITS
}

/// Clears the sign bit: the absolute value of the lane.
pub fn abs_bits(b: u64) -> (r: u64)
    ensures
        r == mag_bits(b),
        sign_field(r) == 0,
        exp_field(r) == exp_field(b),
        frac_field(r) == frac_field(b),
{
    proof {
        assert((b & 0x7FFF_FFFF_FFFF_FFFF) >> 63 == 0 && ((b & 0x7FFF_FFFF_FFFF_FFFF) >> 52)
            & 0x7FF == (b >> 52) & 0x7FF && (b & 0x7FFF_FFFF_FFFF_FFFF) & 0x000F_FFFF_FFFF_FFFF
            == b & 0x000F_FFFF_FFFF_FFFF) by (bit_vector);
    }
    b & 0x7FFF_FFFF_FFFF_FFFF
}

/// Flips the sign bit: the negation of the lane.
pub fn neg_bits(b: u64) -> (r: u64)
    ensures
        r == b ^ 0x8000_0000_0000_0000u64,
        sign_field(r) == 1 - sign_field(b),
        exp_field(r) == exp_field(b),
        frac_field(r) == frac_field(b),
        mag_bits(r) == mag_bits(b),
{
    proof {
        assert(b >> 63 == 0 || b >> 63 == 1) by (bit_vector);
        assert((b ^ 0x8000_0000_0000_0000) >> 63 == 1 - (b >> 63) && ((b
            ^ 0x8000_0000_0000_0000) >> 52) & 0x7FF == (b >> 52) & 0x7FF && (b
            ^ 0x8000_0000_0000_0000) & 0x000F_FFFF_FFFF_FFFF == b & 0x000F_FFFF_FFFF_FFFF && (b
            ^ 0x8000_0000_0000_0000) & 0x7FFF_FFFF_FFFF_FFFF == b & 0x7FFF_FFFF_FFFF_FFFF) by (bit_vector)
            requires
                b >> 63 == 0 || b >> 63 == 1,
        ;
    }
    b ^ 0x8000_0000_0000_0000
}

/// The signed-magnitude ordering key of a pattern.
fn float_key_i128(b: u64) -> (k: i128)
    ensures
        k as int == float_key(b),
{
    let m = (b & 0x7FFF_FFFF_FFFF_FFFF) as i128;
    if b >> 63 == 1 {
        -m
    } else {
        m
    }
}

/// IEEE-754 `<` on two lane patterns.
pub fn ieee_lt(a: u64, b: u64) -> (r: bool)
    ensures
        r == ieee_lt_bits(a, b),
{
    if is_nan(a) || is_nan(b) {
        false
    } else {
        float_key_i128(a) < float_key_i128(b)
    }
}

/// IEEE-754 `<=` on two lane patterns.
pub fn ieee_le(a: u64, b: u64) -> (r: bool)
    ensures
        r == ieee_le_bits(a, b),
{
    if is_nan(a) || is_nan(b) {
        false
    } else {
        float_key_i128(a) <= float_key_i128(b)
    }
}

/// Builds the bit pattern of the exact power of two `2^e` for a normal
/// exponent: the biased exponent shifted into the exponent field, sign and
/// fraction zero. This is the reconstruction step of the exp2 kernel. At
/// the bottom of the range, `e == -1023`, the biased exponent is zero and
/// the pattern is positive zero: the kernel's underflow path.
pub fn pow2_bits(e: i64) -> (r: u64)
    requires
        -1023 <= e <= 1023,
    ensures
        r == ((e + 1023) as u64) << 52u64,
        sign_field(r) == 0,
        exp_field(r) == (e + 1023) as u64,
        frac_field(r) == 0,
        !is_nan_bits(r),
        is_finite_bits(r),
        e == -1023 ==> r == POS_ZERO_BITS,
{
    let k: u64 = (e + 1023) as u64;
    proof {
        assert((k << 52) >> 63 == 0 && ((k << 52) >> 52) & 0x7FF == k && (k << 52)
            & 0x000F_FFFF_FFFF_FFFF == 0 && (k == 0 ==> k << 52 == 0)) by (bit_vector)
            requires
                k <= 2046,
        ;
    }
    k << 52
}

} // verus!
