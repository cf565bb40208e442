//! The unrolling driver.
//!
//! `apply_kernel` applies a per-lane kernel to every element of an input
//! buffer, writing an output buffer of equal length, and never touches a
//! lane outside `[0, n)`. Arrays shorter than one register go through a
//! zero-padded stack bundle; long arrays go through a four-register unrolled
//! hot path (four independent load/apply/store chains, so the chains'
//! latencies overlap), then a single-register drain, and finally an
//! overlapping register over the last `w` lanes when the length is not a
//! multiple of the register width. The overlap is sound because a kernel is
//! a pure function of each lane: recomputing an already-written lane writes
//! the same value again.

use vstd::prelude::*;
use vstd::pervasive::VecAdditionalExecFns;
use crate::kernel::Kernel;
use crate::lanes::{load_lanes, store_lanes};

verus! {

/// Loads one register at `off`, applies the kernel, and stores the result
/// back at `off`: lanes `[off, off + w)` now hold the kernel of the input,
/// every other lane is untouched.
pub fn apply_at_offset<K: Kernel>(k: &K, x: &Vec<u64>, y: &mut Vec<u64>, off: usize)
    requires
        off + k.spec_width() <= x@.len(),
        old(y)@.len() == x@.len(),
    ensures
        final(y)@.len() == old(y)@.len(),
        forall|j: int| off <= j < off + k.spec_width() ==> final(y)@[j] == k.lane(x@[j]),
        forall|j: int|
            0 <= j < old(y)@.len() && !(off <= j < off + k.spec_width()) ==> final(y)@[j] == old(
                y,
            )@[j],
{
    let w = k.width();
    let v = load_lanes(x, off, w);
    let r = k.apply(&v);
    assert forall|j: int| off <= j < off + w implies r@[j - off] == k.lane(x@[j]) by {
        assert(v@[j - off] == x@[j]);
    }
    store_lanes(y, off, &r);
}

/// Applies the kernel to every lane of `x`, writing the output buffer `y` of
/// equal length: afterwards `y[i]` is the kernel of `x[i]` for every
/// `i < n`, whatever the length `n`.
pub fn apply_kernel<K: Kernel>(k: &K, x: &Vec<u64>, y: &mut Vec<u64>)
    requires
        old(y)@.len() == x@.len(),
        k.spec_width() >= 1,
    ensures
        final(y)@.len() == x@.len(),
        forall|i: int| 0 <= i < x@.len() ==> final(y)@[i] == k.lane(x@[i]),
{
    let n = x.len();
    let w = k.width();
    if n < w {
        // Short input: widen into a zero-padded bundle so the kernel still
        // sees one full register, then copy back only the first n lanes.
        let mut xa: Vec<u64> = Vec::new();
        let mut j: usize = 0;
        while j < n
            invariant
                j <= n,
                n == x@.len(),
                xa@.len() == j,
                forall|l: int| 0 <= l < j ==> xa@[l] == x@[l],
            decreases n - j,
        {
            xa.push(x[j]);
            j += 1;
        }
        while j < w
            invariant
                n <= j <= w,
                n == x@.len(),
                xa@.len() == j,
                forall|l: int| 0 <= l < n ==> xa@[l] == x@[l],
            decreases w - j,
        {
            xa.push(0);
            j += 1;
        }
        let ya = k.apply(&xa);
        let mut i: usize = 0;
        while i < n
            invariant
                i <= n,
                n == x@.len(),
                y@.len() == n,
                ya@.len() == w,
                n <= w,
                forall|l: int| 0 <= l < n ==> ya@[l] == k.lane(x@[l]),
                forall|l: int| 0 <= l < i ==> y@[l] == k.lane(x@[l]),
            decreases n - i,
        {
            y.set(i, ya[i]);
            i += 1;
        }
        return ;
    }
    let mut i: usize = 0;
    if w <= n / 4 {
        // Hot path: four independent register chains per iteration.
        proof {
            assert(n == 4 * (n / 4) + n % 4);
        }
        let limit = n - 4 * w;
        while i <= limit
            invariant
                i <= n,
                n == x@.len(),
                y@.len() == n,
                w as int == k.spec_width(),
                1 <= w,
                4 * w <= n,
                limit == n - 4 * w,
                forall|l: int| 0 <= l < i ==> y@[l] == k.lane(x@[l]),
            decreases n - i,
        {
            apply_at_offset(k, x, y, i);
            apply_at_offset(k, x, y, i + w);
            apply_at_offset(k, x, y, i + 2 * w);
            apply_at_offset(k, x, y, i + 3 * w);
            i += 4 * w;
        }
    }
    // Drain: one register at a time while a full register remains.
    while i <= n - w
        invariant
            i <= n,
            n == x@.len(),
            y@.len() == n,
            w as int == k.spec_width(),
            1 <= w <= n,
            forall|l: int| 0 <= l < i ==> y@[l] == k.lane(x@[l]),
        decreases n - i,
    {
        apply_at_offset(k, x, y, i);
        i += w;
    }
    if i != n {
        // Tail: recompute the last full register, overlapping lanes that
        // were already written; the kernel is pure, so they do not change.
        let start = n - w;
        apply_at_offset(k, x, y, start);
        assert forall|l: int| 0 <= l < n implies y@[l] == k.lane(x@[l]) by {
            if l < n - w {
                assert(l < i);
            }
        }
    }
}

} // verus!
