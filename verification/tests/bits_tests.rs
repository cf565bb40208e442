use lit_math::bits::{
    abs_bits, biased_exponent, ieee_le, ieee_lt, is_finite, is_inf, is_nan, is_zero,
    mantissa_bits, neg_bits, pow2_bits, sign_bit, unbiased_exponent, NEG_INF_BITS, NEG_ZERO_BITS,
    ONE_BITS, POS_INF_BITS, POS_ZERO_BITS, QNAN_BITS,
};

fn sample_values() -> Vec<f64> {
    vec![
        0.0,
        -0.0,
        1.0,
        -1.0,
        0.5,
        -0.5,
        2.0,
        f64::INFINITY,
        f64::NEG_INFINITY,
        f64::NAN,
        -f64::NAN,
        f64::MAX,
        f64::MIN,
        f64::MIN_POSITIVE,
        5e-324,
        -5e-324,
        900.0,
        -900.0,
        3.14159,
    ]
}

#[test]
fn classification_matches_std() {
    for v in sample_values() {
        let b = v.to_bits();
        assert_eq!(is_nan(b), v.is_nan(), "{}", v);
        assert_eq!(is_inf(b), v.is_infinite(), "{}", v);
        assert_eq!(is_finite(b), v.is_finite(), "{}", v);
        assert_eq!(is_zero(b), v == 0.0, "{}", v);
        assert_eq!(sign_bit(b) == 1, v.is_sign_negative(), "{}", v);
    }
}

#[test]
fn named_constants_match_std() {
    assert_eq!(POS_INF_BITS, f64::INFINITY.to_bits());
    assert_eq!(NEG_INF_BITS, f64::NEG_INFINITY.to_bits());
    assert_eq!(QNAN_BITS, f64::NAN.to_bits());
    assert_eq!(POS_ZERO_BITS, 0.0f64.to_bits());
    assert_eq!(NEG_ZERO_BITS, (-0.0f64).to_bits());
    assert_eq!(ONE_BITS, 1.0f64.to_bits());
}

#[test]
fn ordering_matches_std() {
    let vals = sample_values();
    for &a in &vals {
        for &b in &vals {
            assert_eq!(ieee_lt(a.to_bits(), b.to_bits()), a < b, "{} < {}", a, b);
            assert_eq!(ieee_le(a.to_bits(), b.to_bits()), a <= b, "{} <= {}", a, b);
        }
    }
}

#[test]
fn abs_and_neg_match_std() {
    for v in sample_values() {
        let b = v.to_bits();
        assert_eq!(abs_bits(b), v.abs().to_bits(), "{}", v);
        assert_eq!(neg_bits(b), (-v).to_bits(), "{}", v);
    }
}

#[test]
fn pow2_reconstruction_is_exact() {
    for e in -1022i64..=1023i64 {
        let expect = 2.0f64.powi(e as i32).to_bits();
        assert_eq!(pow2_bits(e), expect, "2^{}", e);
    }
    // The bottom of the range underflows to positive zero.
    assert_eq!(pow2_bits(-1023), 0.0f64.to_bits());
}

#[test]
fn decomposition_matches_std() {
    // The getexp/getmant decomposition of normal values: x == m * 2^e with
    // m in [1, 2).
    for v in [1.0f64, 1.5, 2.0, 0.51, 3.14159, 900.0, 1.5e300, f64::MIN_POSITIVE] {
        let b = v.to_bits();
        let e = unbiased_exponent(b);
        let m = f64::from_bits(mantissa_bits(b));
        assert!((1.0..2.0).contains(&m), "{}", v);
        assert_eq!(m * 2.0f64.powi(e as i32), v, "{}", v);
        assert_eq!(biased_exponent(b) as i64, e + 1023);
    }
}
