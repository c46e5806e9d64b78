//! Dense `u64` matrix multiplication under four strategies: scalar,
//! lane-grouped, row-parallel, and row-parallel lane-grouped.
//!
//! Element arithmetic wraps modulo 2^64, so every strategy computes the
//! same value regardless of the order in which partial sums are combined.
pub mod arith;
pub mod dot;
pub mod kernels;
pub mod laws;
pub mod matrix;
pub mod parallel;
pub mod product;
