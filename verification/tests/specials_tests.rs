use lit_math::bits::{NEG_INF_BITS, POS_INF_BITS, QNAN_BITS, SIGN_MASK};
use lit_math::specials::{
    erf_sign_lane, exp2_special_lane, log2_special_lane, nan_guard_lane, EXP2_HIGH_BITS,
};

const CORE: u64 = 0x3FE5_5555_5555_5555;

#[test]
fn exp2_threshold_matches_std() {
    assert_eq!(EXP2_HIGH_BITS, (709.0 * std::f64::consts::LOG2_E).to_bits());
}

#[test]
fn exp2_special_table() {
    // Positive infinity overflows to positive infinity.
    assert_eq!(exp2_special_lane(POS_INF_BITS, CORE), POS_INF_BITS);
    // NaN propagates.
    assert_eq!(exp2_special_lane(f64::NAN.to_bits(), CORE), QNAN_BITS);
    // Negative infinity is left to the clamped core (which drives it to zero).
    assert_eq!(exp2_special_lane(NEG_INF_BITS, CORE), CORE);
    // A large argument beyond the threshold overflows.
    let big = (900.0 * std::f64::consts::LOG2_E).to_bits();
    assert_eq!(exp2_special_lane(big, CORE), POS_INF_BITS);
    // A large negative argument is left to the clamped core.
    let small = (-900.0 * std::f64::consts::LOG2_E).to_bits();
    assert_eq!(exp2_special_lane(small, CORE), CORE);
    // Ordinary arguments pass through, the threshold itself included.
    assert_eq!(exp2_special_lane(0.5f64.to_bits(), CORE), CORE);
    assert_eq!(exp2_special_lane(EXP2_HIGH_BITS, CORE), CORE);
}

#[test]
fn log2_special_table() {
    // ln(1.0) and every positive argument: the core decides.
    assert_eq!(log2_special_lane(1.0f64.to_bits(), CORE), CORE);
    // ln(0) is negative infinity, for zero of either sign.
    assert_eq!(log2_special_lane(0.0f64.to_bits(), CORE), NEG_INF_BITS);
    assert_eq!(log2_special_lane((-0.0f64).to_bits(), CORE), NEG_INF_BITS);
    // ln of a negative argument is NaN; negative infinity included.
    assert_eq!(log2_special_lane((-0.5f64).to_bits(), CORE), QNAN_BITS);
    assert_eq!(log2_special_lane(NEG_INF_BITS, CORE), QNAN_BITS);
    // ln(+inf): the core decides (and produces +inf in the full kernel).
    assert_eq!(log2_special_lane(POS_INF_BITS, CORE), CORE);
    // A NaN input is left to the core, through which it propagates.
    assert_eq!(log2_special_lane(f64::NAN.to_bits(), CORE), CORE);
}

#[test]
fn nan_guard_table() {
    assert_eq!(nan_guard_lane(f64::NAN.to_bits(), CORE), QNAN_BITS);
    assert_eq!(nan_guard_lane((-f64::NAN).to_bits(), CORE), QNAN_BITS);
    assert_eq!(nan_guard_lane(1.0f64.to_bits(), CORE), CORE);
    assert_eq!(nan_guard_lane(POS_INF_BITS, CORE), CORE);
    assert_eq!(nan_guard_lane(NEG_INF_BITS, CORE), CORE);
}

#[test]
fn erf_sign_fold_table() {
    let flipped = CORE ^ SIGN_MASK;
    // Positive arguments keep the magnitude core's sign.
    assert_eq!(erf_sign_lane(1.0f64.to_bits(), CORE), CORE);
    assert_eq!(erf_sign_lane(POS_INF_BITS, CORE), CORE);
    // Negative arguments flip it; negative infinity included.
    assert_eq!(erf_sign_lane((-1.0f64).to_bits(), CORE), flipped);
    assert_eq!(erf_sign_lane(NEG_INF_BITS, CORE), flipped);
    // Both zeros compare at or below negative zero, so both flip: the
    // documented behaviour of this sign fold at the origin.
    assert_eq!(erf_sign_lane(0.0f64.to_bits(), CORE), flipped);
    assert_eq!(erf_sign_lane((-0.0f64).to_bits(), CORE), flipped);
    // NaN compares below nothing, so the core (already NaN) is kept.
    assert_eq!(erf_sign_lane(f64::NAN.to_bits(), CORE), CORE);
}
