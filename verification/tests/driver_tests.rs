use lit_math::driver::apply_kernel;
use lit_math::kernel::{AbsKernel, NegKernel};

fn sample_values(n: usize) -> Vec<f64> {
    let specials = [
        0.0,
        -0.0,
        1.0,
        -1.0,
        f64::INFINITY,
        f64::NEG_INFINITY,
        f64::NAN,
        1.5e300,
        -2.5e-310,
    ];
    let mut v = Vec::new();
    for i in 0..n {
        if i < specials.len() {
            v.push(specials[i]);
        } else {
            v.push((i as f64) * 0.37 - 100.0);
        }
    }
    v
}

fn check_abs_at_len(w: usize, n: usize) {
    let vals = sample_values(n);
    let x: Vec<u64> = vals.iter().map(|v| v.to_bits()).collect();
    let mut y = vec![0u64; n];
    let k = AbsKernel { lanes: w };
    apply_kernel(&k, &x, &mut y);
    assert_eq!(y.len(), n);
    for i in 0..n {
        assert_eq!(y[i], vals[i].abs().to_bits(), "lane {} at n={} w={}", i, n, w);
    }
}

fn check_neg_at_len(w: usize, n: usize) {
    let vals = sample_values(n);
    let x: Vec<u64> = vals.iter().map(|v| v.to_bits()).collect();
    let mut y = vec![0u64; n];
    let k = NegKernel { lanes: w };
    apply_kernel(&k, &x, &mut y);
    assert_eq!(y.len(), n);
    for i in 0..n {
        assert_eq!(y[i], (-vals[i]).to_bits(), "lane {} at n={} w={}", i, n, w);
    }
}

#[test]
fn abs_boundary_lengths_w4() {
    for n in [0, 1, 3, 4, 5, 15, 16, 17, 100] {
        check_abs_at_len(4, n);
    }
}

#[test]
fn abs_boundary_lengths_w8() {
    for n in [0, 1, 7, 8, 9, 31, 32, 33, 100] {
        check_abs_at_len(8, n);
    }
}

#[test]
fn neg_boundary_lengths_w4() {
    for n in [0, 1, 3, 4, 5, 15, 16, 17, 100] {
        check_neg_at_len(4, n);
    }
}

#[test]
fn neg_boundary_lengths_w8() {
    for n in [0, 1, 7, 8, 9, 31, 32, 33, 100] {
        check_neg_at_len(8, n);
    }
}

#[test]
fn offset_application_touches_one_register() {
    let x: Vec<u64> = (0..16).map(|i| ((i as f64) - 8.0).to_bits()).collect();
    let mut y = vec![7u64; 16];
    let k = AbsKernel { lanes: 4 };
    lit_math::driver::apply_at_offset(&k, &x, &mut y, 6);
    for i in 0..16 {
        if (6..10).contains(&i) {
            assert_eq!(y[i], ((i as f64) - 8.0).abs().to_bits());
        } else {
            assert_eq!(y[i], 7);
        }
    }
}

#[test]
fn driver_overwrites_stale_output() {
    // The output buffer's prior contents must not survive anywhere,
    // including the overlapping tail.
    let n: usize = 13;
    let x: Vec<u64> = (0..n).map(|i| ((i as f64) - 6.0).to_bits()).collect();
    let mut y = vec![0xDEAD_BEEF_DEAD_BEEFu64; n];
    let k = AbsKernel { lanes: 8 };
    apply_kernel(&k, &x, &mut y);
    for i in 0..n {
        assert_eq!(y[i], ((i as f64) - 6.0).abs().to_bits());
    }
}
