//! The kernel interface.
//!
//! A kernel is a pure, per-lane function applied to one vector register's
//! worth of lanes at a time. The driver requires nothing of a kernel beyond
//! this contract; in particular the tail of an array may be recomputed
//! through an overlapping register precisely because `apply` is a function
//! of the lane values alone.

use vstd::prelude::*;
use crate::bits::{abs_bits, mag_bits, neg_bits};

verus! {

/// One vector register's worth of work: a per-lane pure function together
/// with the lane count of the register it operates on.
pub trait Kernel {
    /// What the kernel computes on one lane's bit pattern. The default — the
    /// identity — is for unverified kernels outside this crate; every kernel
    /// verified here says what it computes.
    open spec fn lane(&self, x: u64) -> u64 {
        x
    }

    /// The lane count of the kernel's vector register.
    open spec fn spec_width(&self) -> int {
        1
    }

    /// The lane count, as executable code.
    fn width(&self) -> (w: usize)
        ensures
            w as int == self.spec_width(),
    ;

    /// Applies the kernel to one full register: every output lane is the
    /// kernel's function of the input lane in the same position.
    fn apply(&self, v: &Vec<u64>) -> (r: Vec<u64>)
        requires
            v@.len() == self.spec_width(),
        ensures
            r@.len() == v@.len(),
            forall|i: int| 0 <= i < v@.len() ==> r@[i] == self.lane(v@[i]),
    ;
}

/// Elementwise absolute value: clears the sign bit of every lane.
pub struct AbsKernel {
    pub lanes: usize,
}

impl Kernel for AbsKernel {
    open spec fn lane(&self, x: u64) -> u64 {
        mag_bits(x)
    }

    open spec fn spec_width(&self) -> int {
        self.lanes as int
    }

    fn width(&self) -> (w: usize) {
        self.lanes
    }

    fn apply(&self, v: &Vec<u64>) -> (r: Vec<u64>) {
        let n = v.len();
        let mut r: Vec<u64> = Vec::new();
        let mut j: usize = 0;
        while j < n
            invariant
                j <= n,
                n == v@.len(),
                r@.len() == j,
                forall|i: int| 0 <= i < j ==> r@[i] == mag_bits(v@[i]),
            decreases n - j,
        {
            r.push(abs_bits(v[j]));
            j += 1;
        }
        r
    }
}

/// Elementwise negation: flips the sign bit of every lane.
pub struct NegKernel {
    pub lanes: usize,
}

impl Kernel for NegKernel {
    open spec fn lane(&self, x: u64) -> u64 {
        x ^ 0x8000_0000_0000_0000u64
    }

    open spec fn spec_width(&self) -> int {
        self.lanes as int
    }

    fn width(&self) -> (w: usize) {
        self.lanes
    }

    fn apply(&self, v: &Vec<u64>) -> (r: Vec<u64>) {
        let n = v.len();
        let mut r: Vec<u64> = Vec::new();
        let mut j: usize = 0;
        while j < n
            invariant
                j <= n,
                n == v@.len(),
                r@.len() == j,
                forall|i: int| 0 <= i < j ==> r@[i] == (v@[i] ^ 0x8000_0000_0000_0000u64),
            decreases n - j,
        {
            r.push(neg_bits(v[j]));
            j += 1;
        }
        r
    }
}

} // verus!
