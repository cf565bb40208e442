use lit_math::dot::dot;
use lit_math::lanes::{blend_lanes, load_lanes, store_lanes};

fn naive_dot(x: &[u64], y: &[u64]) -> u64 {
    let mut r: u64 = 0;
    for i in 0..x.len() {
        r = r.wrapping_add(x[i].wrapping_mul(y[i]));
    }
    r
}

fn pseudo_random(n: usize, mut seed: u64) -> Vec<u64> {
    let mut v = Vec::new();
    for _ in 0..n {
        seed = seed.wrapping_mul(6364136223846793005).wrapping_add(1442695040888963407);
        v.push(seed);
    }
    v
}

#[test]
fn dot_exact_small() {
    let x = vec![1u64, 2, 3];
    let y = vec![4u64, 5, 6];
    assert_eq!(dot(&x, &y), 32);
}

#[test]
fn dot_empty() {
    let x: Vec<u64> = vec![];
    let y: Vec<u64> = vec![];
    assert_eq!(dot(&x, &y), 0);
}

#[test]
fn dot_matches_naive_at_boundaries() {
    for n in [0, 1, 7, 8, 9, 31, 32, 33, 63, 64, 65, 100, 257] {
        let x = pseudo_random(n, 42);
        let y = pseudo_random(n, 1234567);
        assert_eq!(dot(&x, &y), naive_dot(&x, &y), "n={}", n);
    }
}

#[test]
fn dot_wraps_like_modular_arithmetic() {
    let x = vec![u64::MAX, u64::MAX, 3, u64::MAX / 2];
    let y = vec![u64::MAX, 2, u64::MAX, 4];
    assert_eq!(dot(&x, &y), naive_dot(&x, &y));
}

#[test]
fn load_store_roundtrip() {
    let x: Vec<u64> = (0..20u64).collect();
    let v = load_lanes(&x, 5, 8);
    assert_eq!(v, (5..13u64).collect::<Vec<u64>>());
    let mut y = vec![0u64; 20];
    store_lanes(&mut y, 5, &v);
    for i in 0..20 {
        if (5..13).contains(&i) {
            assert_eq!(y[i], i as u64);
        } else {
            assert_eq!(y[i], 0);
        }
    }
}

#[test]
fn blend_selects_lanes() {
    let a = vec![10u64, 11, 12, 13];
    let b = vec![20u64, 21, 22, 23];
    let mask = vec![true, false, true, false];
    let r = blend_lanes(&mask, &a, &b);
    assert_eq!(r, vec![20, 11, 22, 13]);
}
