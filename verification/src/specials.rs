//! Special-value handling of the kernels.
//!
//! Each numerical kernel ends with a blend that overrides the polynomial
//! core's result on the lanes where IEEE-754 special semantics apply: NaN
//! propagation, overflow to infinity, the logarithm's domain edge, and the
//! error function's sign fold. Those blends are exact decisions on bit
//! patterns, so they are verified here, one pure function per kernel, each
//! taking the lane's untouched input and the core's candidate result. The
//! lemmas below pin down the special-value table these passes enforce.

use vstd::prelude::*;
use crate::bits::{
    is_nan_bits, is_zero_bits, ieee_lt_bits, ieee_le_bits, sign_field, mag_bits, exp_field,
    float_key, is_nan, is_zero, ieee_lt, ieee_le, neg_bits, lemma_const_fields, POS_INF_BITS,
    NEG_INF_BITS, QNAN_BITS, POS_ZERO_BITS, NEG_ZERO_BITS,
};

verus! {

/// Bit pattern of the exp2 overflow threshold, the double nearest
/// 709 · log2(e): above it the kernel's scaled result would overflow, so the
/// blend forces positive infinity.
pub const EXP2_HIGH_BITS: u64 = 0x408F_F6F7_5D98_C0E5;

/// What the exp2 kernel's closing blends leave in one lane: a NaN input
/// stays NaN, an input above the overflow threshold becomes positive
/// infinity, and every other lane keeps the clamped core's result.
pub open spec fn exp2_special_spec(x: u64, core: u64) -> u64 {
    if is_nan_bits(x) {
        QNAN_BITS
    } else if !ieee_le_bits(x, EXP2_HIGH_BITS) {
        POS_INF_BITS
    } else {
        core
    }
}

/// Applies the exp2 kernel's special-value blend to one lane.
pub fn exp2_special_lane(x: u64, core: u64) -> (r: u64)
    ensures
        r == exp2_special_spec(x, core),
{
    if is_nan(x) {
        QNAN_BITS
    } else if !ieee_le(x, EXP2_HIGH_BITS) {
        POS_INF_BITS
    } else {
        core
    }
}

/// What the log2 kernel's closing blends leave in one lane: a zero of either
/// sign becomes negative infinity, a negative input becomes NaN, and every
/// other lane keeps the core's result (a NaN input propagates through the
/// core itself).
pub open spec fn log2_special_spec(x: u64, core: u64) -> u64 {
    if is_zero_bits(x) {
        NEG_INF_BITS
    } else if ieee_lt_bits(x, POS_ZERO_BITS) {
        QNAN_BITS
    } else {
        core
    }
}

/// Applies the log2 kernel's special-value blend to one lane.
pub fn log2_special_lane(x: u64, core: u64) -> (r: u64)
    ensures
        r == log2_special_spec(x, core),
{
    if is_zero(x) {
        NEG_INF_BITS
    } else if ieee_lt(x, POS_ZERO_BITS) {
        QNAN_BITS
    } else {
        core
    }
}

/// What the closing NaN blend of the sine and arctangent kernels leaves in
/// one lane: a NaN input becomes the canonical quiet NaN, every other lane
/// keeps the core's result.
pub open spec fn nan_guard_spec(x: u64, core: u64) -> u64 {
    if is_nan_bits(x) {
        QNAN_BITS
    } else {
        core
    }
}

/// Applies the NaN guard to one lane.
pub fn nan_guard_lane(x: u64, core: u64) -> (r: u64)
    ensures
        r == nan_guard_spec(x, core),
{
    if is_nan(x) {
        QNAN_BITS
    } else {
        core
    }
}

/// What the error-function kernel's sign blend leaves in one lane: the core
/// is computed from the magnitude of the input, and where the input is at or
/// below negative zero the core's sign is flipped. Positive zero compares
/// equal to negative zero, so it takes the flipped branch too.
pub open spec fn erf_sign_spec(x: u64, core: u64) -> u64 {
    if ieee_le_bits(x, NEG_ZERO_BITS) {
        core ^ 0x8000_0000_0000_0000u64
    } else {
        core
    }
}

/// Applies the error-function sign blend to one lane.
pub fn erf_sign_lane(x: u64, core: u64) -> (r: u64)
    ensures
        r == erf_sign_spec(x, core),
{
    if ieee_le(x, NEG_ZERO_BITS) {
        neg_bits(core)
    } else {
        core
    }
}

/// A lane holding positive infinity leaves the exp2 pass as positive
/// infinity, whatever the core produced.
pub proof fn lemma_exp2_special_pos_inf(core: u64)
    ensures
        exp2_special_spec(POS_INF_BITS, core) == POS_INF_BITS,
{
    lemma_const_fields();
    assert(float_key(POS_INF_BITS) > float_key(EXP2_HIGH_BITS)) by {
        assert(mag_bits(EXP2_HIGH_BITS) == EXP2_HIGH_BITS && sign_field(EXP2_HIGH_BITS) == 0)
            by (bit_vector);
    }
}

/// A NaN lane leaves the exp2 pass as the canonical quiet NaN, whatever the
/// core produced.
pub proof fn lemma_exp2_special_nan(x: u64, core: u64)
    requires
        is_nan_bits(x),
    ensures
        exp2_special_spec(x, core) == QNAN_BITS,
{
}

/// A lane at or below the overflow threshold — negative infinity among them
/// — leaves the exp2 pass with the core's result: on those lanes the clamped
/// computation decides (it drives large negative inputs to zero).
pub proof fn lemma_exp2_special_in_range(x: u64, core: u64)
    requires
        !is_nan_bits(x),
        ieee_le_bits(x, EXP2_HIGH_BITS),
    ensures
        exp2_special_spec(x, core) == core,
{
}

/// Negative infinity is at or below the overflow threshold, so its lane
/// keeps the core's result.
pub proof fn lemma_exp2_special_neg_inf(core: u64)
    ensures
        exp2_special_spec(NEG_INF_BITS, core) == core,
{
    lemma_const_fields();
    assert(mag_bits(EXP2_HIGH_BITS) == EXP2_HIGH_BITS && sign_field(EXP2_HIGH_BITS) == 0
        && exp_field(EXP2_HIGH_BITS) == 0x408) by (bit_vector);
    assert(float_key(NEG_INF_BITS) < float_key(EXP2_HIGH_BITS));
}

/// A zero lane of either sign leaves the log2 pass as negative infinity.
pub proof fn lemma_log2_special_zero(core: u64)
    ensures
        log2_special_spec(POS_ZERO_BITS, core) == NEG_INF_BITS,
        log2_special_spec(NEG_ZERO_BITS, core) == NEG_INF_BITS,
{
    lemma_const_fields();
}

/// A negative non-NaN, nonzero lane — negative infinity among them — leaves
/// the log2 pass as NaN.
pub proof fn lemma_log2_special_negative(x: u64, core: u64)
    requires
        !is_nan_bits(x),
        sign_field(x) == 1,
        !is_zero_bits(x),
    ensures
        log2_special_spec(x, core) == QNAN_BITS,
{
    lemma_const_fields();
}

/// A positive non-NaN, nonzero lane — positive infinity among them — leaves
/// the log2 pass with the core's result.
pub proof fn lemma_log2_special_positive(x: u64, core: u64)
    requires
        !is_nan_bits(x),
        sign_field(x) == 0,
        !is_zero_bits(x),
    ensures
        log2_special_spec(x, core) == core,
{
    lemma_const_fields();
}

/// A non-NaN lane at or below negative zero — positive zero compares equal
/// to negative zero, so it is included — leaves the error-function pass with
/// the core's sign flipped; a positive nonzero lane keeps the core.
pub proof fn lemma_erf_sign_fold(x: u64, core: u64)
    requires
        !is_nan_bits(x),
    ensures
        sign_field(x) == 1 || is_zero_bits(x) ==> erf_sign_spec(x, core) == (core
            ^ 0x8000_0000_0000_0000u64),
        sign_field(x) == 0 && !is_zero_bits(x) ==> erf_sign_spec(x, core) == core,
{
    lemma_const_fields();
}

} // verus!
