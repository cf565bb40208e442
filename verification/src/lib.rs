//! Elementwise vectorized math kernels over IEEE-754 binary64 bit patterns.
//!
//! Every value that crosses this library's boundary is the 64-bit pattern of a
//! double-precision float (`f64::to_bits` / `f64::from_bits`). The library
//! verifies the parts of a SIMD math library that are exact bit-level logic:
//! the IEEE-754 field decomposition and reconstruction, the special-value
//! (NaN / infinity / signed zero) handling of each kernel, the lane-bundle
//! load/store/blend primitives, the generic unrolled driver that applies a
//! per-lane kernel to an array of any length with no out-of-bounds access, and
//! the blocked dot-product reduction in exact (modular) lane arithmetic.
//! The floating-point polynomial evaluation itself is not represented here.

pub mod bits;
pub mod dot;
pub mod driver;
pub mod kernel;
pub mod lanes;
pub mod specials;
