//! The dot-product reduction driver.
//!
//! The reduction keeps four independent accumulator registers, fed round
//! robin across four-register groups of the input so the multiply-add
//! chains' latencies overlap, then pairs the accumulators together, reduces
//! the final register horizontally to one lane, and finishes any remainder
//! with a scalar loop. Lane arithmetic here is exact modular `u64`
//! arithmetic (wrapping multiply and add), so the theorem is exact: whatever
//! the blocking, the result equals the naive sequential dot product of the
//! two buffers, modulo 2^64. The floating-point evaluation of the same
//! blocking inherits its summation order from this structure.

use vstd::prelude::*;
use vstd::pervasive::VecAdditionalExecFns;
use vstd::arithmetic::div_mod::{
    lemma_add_mod_noop, lemma_add_mod_noop_right, lemma_mod_bound, lemma_mod_sub_multiples_vanish,
    lemma_small_mod,
};

verus! {

/// The lane count of the reduction's registers.
pub const DOT_LANES: usize = 8;

/// The modulus of the lane arithmetic: 2^64.
pub open spec fn lane_modulus() -> int {
    0x1_0000_0000_0000_0000
}

/// The exact dot product of the lane pairs in `[from, to)`, as an unbounded
/// integer: the reference every blocked reduction is held to.
pub open spec fn dot_int(x: Seq<u64>, y: Seq<u64>, from: int, to: int) -> int
    decreases to - from,
{
    if from >= to {
        0
    } else {
        dot_int(x, y, from, to - 1) + x[to - 1] * y[to - 1]
    }
}

/// The exact sum of a register's lanes, as an unbounded integer.
pub open spec fn lanes_sum(v: Seq<u64>) -> int
    decreases v.len(),
{
    if v.len() == 0 {
        0
    } else {
        lanes_sum(v.drop_last()) + v.last()
    }
}

/// Replacing one lane shifts the lane sum by the difference.
proof fn lemma_lanes_sum_update(v: Seq<u64>, j: int, a: u64)
    requires
        0 <= j < v.len(),
    ensures
        lanes_sum(v.update(j, a)) == lanes_sum(v) - v[j] + a,
    decreases v.len(),
{
    if j == v.len() - 1 {
        assert(v.update(j, a).drop_last() =~= v.drop_last());
    } else {
        lemma_lanes_sum_update(v.drop_last(), j, a);
        assert(v.update(j, a).drop_last() =~= v.drop_last().update(j, a));
    }
}

/// The exact dot product over `[a, c)` splits at any midpoint `b`: a
/// parallel reduction may hand disjoint chunks to separate workers and add
/// the partial results afterwards.
pub proof fn lemma_dot_int_concat(x: Seq<u64>, y: Seq<u64>, a: int, b: int, c: int)
    requires
        a <= b <= c,
    ensures
        dot_int(x, y, a, c) == dot_int(x, y, a, b) + dot_int(x, y, b, c),
    decreases c - b,
{
    if b < c {
        lemma_dot_int_concat(x, y, a, b, c - 1);
    }
}

/// Sums congruent modulo `m` stay congruent when added.
proof fn lemma_mod_add_cong(a1: int, b1: int, a2: int, b2: int, m: int)
    requires
        0 < m,
        a1 % m == b1 % m,
        a2 % m == b2 % m,
    ensures
        (a1 + a2) % m == (b1 + b2) % m,
{
    lemma_add_mod_noop(a1, a2, m);
    lemma_add_mod_noop(b1, b2, m);
}

/// A sum below twice the modulus reduces by at most one subtraction.
proof fn lemma_mod_once(s: int, m: int)
    requires
        0 < m,
        0 <= s < 2 * m,
    ensures
        s % m == if s < m {
            s
        } else {
            s - m
        },
{
    if s < m {
        lemma_small_mod(s as nat, m as nat);
    } else {
        lemma_mod_sub_multiples_vanish(s, m);
        lemma_small_mod((s - m) as nat, m as nat);
    }
}

/// One wrapping multiply-add on a lane advances the lane's value by the
/// exact product, modulo the lane modulus.
proof fn lemma_mod_shift(s: int, a: int, p: int, m: int)
    requires
        0 < m,
        0 <= p,
    ensures
        (s - a + ((a + p % m) % m)) % m == (s + p) % m,
{
    lemma_mod_bound(p, m);
    lemma_add_mod_noop_right(a, p, m);
    lemma_add_mod_noop_right(s - a, a + p, m);
}

/// A register of zeroed lanes.
fn zero_lanes(w: usize) -> (r: Vec<u64>)
    ensures
        r@.len() == w,
        lanes_sum(r@) == 0,
{
    let mut r: Vec<u64> = Vec::new();
    let mut j: usize = 0;
    while j < w
        invariant
            j <= w,
            r@.len() == j,
            lanes_sum(r@) == 0,
        decreases w - j,
    {
        let ghost pre = r@;
        r.push(0);
        proof {
            assert(r@.drop_last() =~= pre);
        }
        j += 1;
    }
    r
}

/// One fused multiply-add of a register: lane `j` of the accumulator gains
/// the product of lanes `off + j` of the two buffers, so the accumulator's
/// lane sum advances by the exact dot product of that register, modulo 2^64.
fn fmadd_lanes(acc: &mut Vec<u64>, x: &Vec<u64>, y: &Vec<u64>, off: usize)
    requires
        x@.len() == y@.len(),
        off + old(acc)@.len() <= x@.len(),
    ensures
        final(acc)@.len() == old(acc)@.len(),
        lanes_sum(final(acc)@) % lane_modulus() == (lanes_sum(old(acc)@) + dot_int(
            x@,
            y@,
            off as int,
            off + old(acc)@.len(),
        )) % lane_modulus(),
{
    let w = acc.len();
    let n = x.len();
    let mut j: usize = 0;
    while j < w
        invariant
            j <= w,
            w == acc@.len() == old(acc)@.len(),
            off + w <= n,
            n == x@.len() == y@.len(),
            lanes_sum(acc@) % lane_modulus() == (lanes_sum(old(acc)@) + dot_int(
                x@,
                y@,
                off as int,
                off + j,
            )) % lane_modulus(),
        decreases w - j,
    {
        let ghost pre = acc@;
        let ghost m = lane_modulus();
        let ghost prod = x@[off + j] as int * y@[off + j] as int;
        let p = x[off + j].wrapping_mul(y[off + j]);
        let s = acc[j].wrapping_add(p);
        acc.set(j, s);
        proof {
            lemma_mod_bound(prod, m);
            lemma_mod_once(pre[j as int] + p, m);
            assert(s == (pre[j as int] + (prod % m)) % m);
            lemma_lanes_sum_update(pre, j as int, s);
            lemma_mod_shift(lanes_sum(pre), pre[j as int] as int, prod, m);
            lemma_mod_add_cong(
                lanes_sum(pre),
                lanes_sum(old(acc)@) + dot_int(x@, y@, off as int, off + j),
                prod,
                prod,
                m,
            );
            assert(dot_int(x@, y@, off as int, off + j + 1) == dot_int(x@, y@, off as int, off + j)
                + prod);
        }
        j += 1;
    }
}

/// Adds register `b` into register `a`, lane by lane, with wrapping
/// arithmetic: the lane sum of `a` advances by the lane sum of `b`,
/// modulo 2^64.
fn add_lanes_wrap(a: &mut Vec<u64>, b: &Vec<u64>)
    requires
        old(a)@.len() == b@.len(),
    ensures
        final(a)@.len() == old(a)@.len(),
        lanes_sum(final(a)@) % lane_modulus() == (lanes_sum(old(a)@) + lanes_sum(b@))
            % lane_modulus(),
{
    let w = a.len();
    let mut j: usize = 0;
    while j < w
        invariant
            j <= w,
            w == a@.len() == old(a)@.len() == b@.len(),
            lanes_sum(a@) % lane_modulus() == (lanes_sum(old(a)@) + lanes_sum(b@.take(j as int)))
                % lane_modulus(),
        decreases w - j,
    {
        let ghost pre = a@;
        let ghost m = lane_modulus();
        let s = a[j].wrapping_add(b[j]);
        a.set(j, s);
        proof {
            lemma_small_mod(b@[j as int] as nat, m as nat);
            lemma_mod_once(pre[j as int] + b[j as int], m);
            assert(s == (pre[j as int] + (b@[j as int] as int % m)) % m);
            lemma_lanes_sum_update(pre, j as int, s);
            lemma_mod_shift(lanes_sum(pre), pre[j as int] as int, b@[j as int] as int, m);
            lemma_mod_add_cong(
                lanes_sum(pre),
                lanes_sum(old(a)@) + lanes_sum(b@.take(j as int)),
                b@[j as int] as int,
                b@[j as int] as int,
                m,
            );
            assert(b@.take(j + 1).drop_last() =~= b@.take(j as int));
        }
        j += 1;
    }
    proof {
        assert(b@.take(w as int) =~= b@);
    }
}

/// The horizontal reduction: folds all lanes of one register into a single
/// lane, which then equals the register's lane sum modulo 2^64.
fn hsum_lanes(v: &Vec<u64>) -> (r: u64)
    ensures
        r as int == lanes_sum(v@) % lane_modulus(),
{
    let w = v.len();
    let mut r: u64 = 0;
    let mut j: usize = 0;
    proof {
        lemma_small_mod(0, lane_modulus() as nat);
        assert(v@.take(0) =~= Seq::<u64>::empty());
    }
    while j < w
        invariant
            j <= w,
            w == v@.len(),
            r as int == lanes_sum(v@.take(j as int)) % lane_modulus(),
        decreases w - j,
    {
        let ghost m = lane_modulus();
        let ghost pre = r;
        r = r.wrapping_add(v[j]);
        proof {
            lemma_mod_once(pre + v[j as int], m);
            lemma_small_mod(v@[j as int] as nat, m as nat);
            lemma_add_mod_noop(lanes_sum(v@.take(j as int)), v@[j as int] as int, m);
            assert(v@.take(j + 1).drop_last() =~= v@.take(j as int));
        }
        j += 1;
    }
    proof {
        assert(v@.take(w as int) =~= v@);
    }
    r
}

/// The blocked dot product of two equal-length buffers of lanes, in exact
/// modular lane arithmetic: four accumulator registers fed round robin over
/// four-register groups, a single-register drain, a horizontal reduction,
/// and a scalar tail. However the work is blocked, the result equals the
/// naive sequential dot product modulo 2^64.
pub fn dot(x: &Vec<u64>, y: &Vec<u64>) -> (r: u64)
    requires
        x@.len() == y@.len(),
    ensures
        r as int == dot_int(x@, y@, 0, x@.len() as int) % lane_modulus(),
{
    let n = x.len();
    if n < DOT_LANES {
        // Too short for a register: plain scalar loop.
        let mut r: u64 = 0;
        let mut ii: usize = 0;
        proof {
            lemma_small_mod(0, lane_modulus() as nat);
        }
        while ii < n
            invariant
                ii <= n,
                n == x@.len() == y@.len(),
                r as int == dot_int(x@, y@, 0, ii as int) % lane_modulus(),
            decreases n - ii,
        {
            let ghost m = lane_modulus();
            let ghost prod = x@[ii as int] as int * y@[ii as int] as int;
            let ghost pre = r;
            r = r.wrapping_add(x[ii].wrapping_mul(y[ii]));
            proof {
                lemma_mod_bound(prod, m);
                lemma_mod_once(pre + (prod % m), m);
                lemma_add_mod_noop_right(pre as int, prod, m);
                lemma_add_mod_noop(dot_int(x@, y@, 0, ii as int), prod, m);
                lemma_small_mod(pre as nat, m as nat);
            }
            ii += 1;
        }
        return r;
    }
    let mut acc0 = zero_lanes(DOT_LANES);
    let mut acc1 = zero_lanes(DOT_LANES);
    let mut acc2 = zero_lanes(DOT_LANES);
    let mut acc3 = zero_lanes(DOT_LANES);
    let mut i: usize = 0;
    if n >= 32 {
        // Hot path: four independent accumulator chains per iteration.
        let limit = n - 32;
        while i <= limit
            invariant
                i <= n,
                n == x@.len() == y@.len(),
                32 <= n,
                limit == n - 32,
                acc0@.len() == 8 && acc1@.len() == 8 && acc2@.len() == 8 && acc3@.len() == 8,
                (lanes_sum(acc0@) + lanes_sum(acc1@) + lanes_sum(acc2@) + lanes_sum(acc3@))
                    % lane_modulus() == dot_int(x@, y@, 0, i as int) % lane_modulus(),
            decreases n - i,
        {
            let ghost m = lane_modulus();
            let ghost d0 = dot_int(x@, y@, 0, i as int);
            let ghost s0 = lanes_sum(acc0@);
            let ghost s1 = lanes_sum(acc1@);
            let ghost s2 = lanes_sum(acc2@);
            let ghost s3 = lanes_sum(acc3@);
            fmadd_lanes(&mut acc0, x, y, i);
            fmadd_lanes(&mut acc1, x, y, i + 8);
            fmadd_lanes(&mut acc2, x, y, i + 16);
            fmadd_lanes(&mut acc3, x, y, i + 24);
            proof {
                let p1 = dot_int(x@, y@, i as int, i + 8);
                let p2 = dot_int(x@, y@, i + 8, i + 16);
                let p3 = dot_int(x@, y@, i + 16, i + 24);
                let p4 = dot_int(x@, y@, i + 24, i + 32);
                lemma_mod_add_cong(lanes_sum(acc0@), s0 + p1, lanes_sum(acc1@), s1 + p2, m);
                lemma_mod_add_cong(
                    lanes_sum(acc0@) + lanes_sum(acc1@),
                    s0 + p1 + s1 + p2,
                    lanes_sum(acc2@),
                    s2 + p3,
                    m,
                );
                lemma_mod_add_cong(
                    lanes_sum(acc0@) + lanes_sum(acc1@) + lanes_sum(acc2@),
                    s0 + p1 + s1 + p2 + s2 + p3,
                    lanes_sum(acc3@),
                    s3 + p4,
                    m,
                );
                lemma_mod_add_cong(s0 + s1 + s2 + s3, d0, p1 + p2 + p3 + p4, p1 + p2 + p3 + p4, m);
                lemma_dot_int_concat(x@, y@, 0, i as int, i + 8);
                lemma_dot_int_concat(x@, y@, 0, i + 8, i + 16);
                lemma_dot_int_concat(x@, y@, 0, i + 16, i + 24);
                lemma_dot_int_concat(x@, y@, 0, i + 24, i + 32);
            }
            i += 32;
        }
    }
    // Pair the accumulators together, as the hardware code pairs registers.
    let ghost t0 = lanes_sum(acc0@);
    let ghost t1 = lanes_sum(acc1@);
    let ghost t2 = lanes_sum(acc2@);
    let ghost t3 = lanes_sum(acc3@);
    let ghost m = lane_modulus();
    add_lanes_wrap(&mut acc2, &acc3);
    add_lanes_wrap(&mut acc0, &acc1);
    proof {
        lemma_mod_add_cong(lanes_sum(acc0@), t0 + t1, lanes_sum(acc2@), t2 + t3, m);
    }
    add_lanes_wrap(&mut acc0, &acc2);
    // Drain: one register at a time while a full register remains.
    while i <= n - DOT_LANES
        invariant
            i <= n,
            n == x@.len() == y@.len(),
            DOT_LANES <= n,
            acc0@.len() == 8,
            lanes_sum(acc0@) % lane_modulus() == dot_int(x@, y@, 0, i as int) % lane_modulus(),
        decreases n - i,
    {
        let ghost m = lane_modulus();
        let ghost d0 = dot_int(x@, y@, 0, i as int);
        let ghost s0 = lanes_sum(acc0@);
        fmadd_lanes(&mut acc0, x, y, i);
        proof {
            lemma_mod_add_cong(s0, d0, dot_int(x@, y@, i as int, i + 8), dot_int(
                x@,
                y@,
                i as int,
                i + 8,
            ), m);
            lemma_dot_int_concat(x@, y@, 0, i as int, i + 8);
        }
        i += DOT_LANES;
    }
    // Horizontal reduction, then the scalar tail.
    let mut r = hsum_lanes(&acc0);
    let mut ii: usize = i;
    while ii < n
        invariant
            i <= ii <= n,
            n == x@.len() == y@.len(),
            r as int == dot_int(x@, y@, 0, ii as int) % lane_modulus(),
        decreases n - ii,
    {
        let ghost m = lane_modulus();
        let ghost prod = x@[ii as int] as int * y@[ii as int] as int;
        let ghost pre = r;
        r = r.wrapping_add(x[ii].wrapping_mul(y[ii]));
        proof {
            lemma_mod_bound(prod, m);
            lemma_mod_once(pre + (prod % m), m);
            lemma_add_mod_noop_right(pre as int, prod, m);
            lemma_add_mod_noop(dot_int(x@, y@, 0, ii as int), prod, m);
            lemma_small_mod(pre as nat, m as nat);
        }
        ii += 1;
    }
    r
}

} // verus!
