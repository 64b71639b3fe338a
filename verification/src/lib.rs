//! Weighted random selection over IEEE-754 binary64 weights.
//!
//! The verified core works on the bit patterns of the weights' cumulative
//! sums, held as plain 64-bit words: `bits` models the ordering of binary64
//! values on their bit patterns, `seed` derives the per-call seed digest, and
//! `select` holds the selection policy and the cumulative scan.

pub mod bits;
pub mod seed;
pub mod select;
