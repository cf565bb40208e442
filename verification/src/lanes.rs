//! Lane bundles and masks.
//!
//! A vector register is a bundle of exactly `w` contiguous lanes of a buffer
//! (`w` is 4 or 8 in practice, but nothing here depends on that). Loads and
//! stores are bounds-checked: a bundle is only ever built from an offset that
//! is proved to be in range, so no access can leave the buffer. A mask is a
//! lane-wise vector of booleans; `blend_lanes` selects between two bundles
//! lane by lane, as a hardware mask-blend does.

use vstd::prelude::*;
use vstd::pervasive::VecAdditionalExecFns;

verus! {

/// Copies the `w` lanes of `x` that start at `off` into a fresh bundle.
pub fn load_lanes(x: &Vec<u64>, off: usize, w: usize) -> (r: Vec<u64>)
    requires
        off + w <= x@.len(),
    ensures
        r@ == x@.subrange(off as int, off + w),
{
    let n = x.len();
    let mut r: Vec<u64> = Vec::new();
    let mut j: usize = 0;
    while j < w
        invariant
            j <= w,
            off + w <= n,
            n == x@.len(),
            r@ == x@.subrange(off as int, off + j),
        decreases w - j,
    {
        r.push(x[off + j]);
        proof {
            assert(x@.subrange(off as int, off + j + 1) =~= x@.subrange(off as int, off + j).push(
                x@[off + j]));
        }
        j += 1;
    }
    r
}

/// Writes the bundle `v` over the lanes of `y` that start at `off`; every
/// other lane of `y` is untouched.
pub fn store_lanes(y: &mut Vec<u64>, off: usize, v: &Vec<u64>)
    requires
        off + v@.len() <= old(y)@.len(),
    ensures
        final(y)@.len() == old(y)@.len(),
        forall|j: int| off <= j < off + v@.len() ==> final(y)@[j] == v@[j - off],
        forall|j: int|
            0 <= j < old(y)@.len() && !(off <= j < off + v@.len()) ==> final(y)@[j] == old(y)@[j],
{
    let w = v.len();
    let n = y.len();
    let mut j: usize = 0;
    while j < w
        invariant
            j <= w,
            w == v@.len(),
            off + w <= n,
            n == y@.len(),
            y@.len() == old(y)@.len(),
            forall|i: int| off <= i < off + j ==> y@[i] == v@[i - off],
            forall|i: int| 0 <= i < old(y)@.len() && !(off <= i < off + j) ==> y@[i] == old(y)@[i],
        decreases w - j,
    {
        y.set(off + j, v[j]);
        j += 1;
    }
}

/// Lane-wise select: where the mask is set the lane comes from `b`, where it
/// is clear the lane comes from `a`, as in a hardware mask blend.
pub fn blend_lanes(mask: &Vec<bool>, a: &Vec<u64>, b: &Vec<u64>) -> (r: Vec<u64>)
    requires
        mask@.len() == a@.len(),
        b@.len() == a@.len(),
    ensures
        r@.len() == a@.len(),
        forall|i: int|
            0 <= i < r@.len() ==> r@[i] == (if mask@[i] {
                b@[i]
            } else {
                a@[i]
            }),
{
    let n = a.len();
    let mut r: Vec<u64> = Vec::new();
    let mut j: usize = 0;
    while j < n
        invariant
            j <= n,
            n == a@.len(),
            mask@.len() == n,
            b@.len() == n,
            r@.len() == j,
            forall|i: int|
                0 <= i < j ==> r@[i] == (if mask@[i] {
                    b@[i]
                } else {
                    a@[i]
                }),
        decreases n - j,
    {
        if mask[j] {
            r.push(b[j]);
        } else {
            r.push(a[j]);
        }
        j += 1;
    }
    r
}

} // verus!
