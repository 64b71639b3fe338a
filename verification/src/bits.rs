//! IEEE-754 binary64 values modelled by their bit patterns.
//!
//! A weight, a cumulative sum and a scan target all enter the verified core
//! as the raw 64-bit bit pattern of a binary64 value. For non-NaN values the
//! standard's `<=` relation can be read off the bit pattern alone: values
//! order as sign-magnitude integers, the two zeros coincide, and every
//! comparison against NaN is false. That relation is defined here as a spec
//! function and implemented, verified, on plain integer operations.

use vstd::prelude::*;

verus! {

/// Mask of the sign bit of a binary64 bit pattern.
pub const F64_SIGN_MASK: u64 = 0x8000_0000_0000_0000;

/// Mask of the exponent and fraction bits: everything below the sign bit.
pub const F64_MAG_MASK: u64 = 0x7FFF_FFFF_FFFF_FFFF;

/// Bit pattern of positive infinity: all exponent bits set, fraction zero.
/// Any magnitude above it encodes NaN.
pub const F64_INF_BITS: u64 = 0x7FF0_0000_0000_0000;

/// Bit pattern of +0.0.
pub const F64_ZERO_BITS: u64 = 0;

/// The magnitude of a bit pattern: the sign bit cleared.
pub open spec fn magnitude_bits(b: u64) -> u64 {
    b & F64_MAG_MASK
}

/// Whether the sign bit of `b` is set, i.e. the encoded value is negative
/// or negative zero.
pub open spec fn sign_neg_bits(b: u64) -> bool {
    b & F64_SIGN_MASK != 0
}

/// Whether `b` encodes NaN: all exponent bits set and a nonzero fraction,
/// which is exactly a magnitude above that of infinity.
pub open spec fn is_nan_bits(b: u64) -> bool {
    magnitude_bits(b) > F64_INF_BITS
}

/// The position of a non-NaN binary64 value on the number line, as an integer
/// key: the magnitude for non-negative values, its negation for negative ones.
/// Binary64 magnitudes of one sign order as plain integers, so two non-NaN
/// values compare exactly as their keys do; +0.0 and -0.0 share the key 0.
/// On a NaN pattern the key is meaningless.
pub open spec fn order_key(b: u64) -> int {
    if sign_neg_bits(b) {
        -(magnitude_bits(b) as int)
    } else {
        magnitude_bits(b) as int
    }
}

/// The `<=` relation of binary64 values, read off their bit patterns: false
/// whenever either side is NaN, and the order of the keys otherwise.
pub open spec fn f64_le_bits(a: u64, b: u64) -> bool {
    &&& !is_nan_bits(a)
    &&& !is_nan_bits(b)
    &&& order_key(a) <= order_key(b)
}

/// Whether `b` is the bit pattern of a NaN.
pub fn is_nan_f64_bits(b: u64) -> (r: bool)
    ensures
        r == is_nan_bits(b),
{
    (b & F64_MAG_MASK) > F64_INF_BITS
}

/// Whether the value encoded by `a` is at most the value encoded by `b`,
/// per the binary64 `<=` relation (so false whenever either side is NaN).
pub fn le_f64_bits(a: u64, b: u64) -> (r: bool)
    ensures
        r == f64_le_bits(a, b),
{
    if is_nan_f64_bits(a) || is_nan_f64_bits(b) {
        false
    } else {
        let neg_a: bool = a & F64_SIGN_MASK != 0;
        let neg_b: bool = b & F64_SIGN_MASK != 0;
        let mag_a: u64 = a & F64_MAG_MASK;
        let mag_b: u64 = b & F64_MAG_MASK;
        if neg_a && neg_b {
            // both at or below zero: the larger magnitude is the smaller value
            mag_b <= mag_a
        } else if !neg_a && !neg_b {
            mag_a <= mag_b
        } else if neg_a {
            // a at or below zero, b at or above zero
            true
        } else {
            // a's key is non-negative, b's is non-positive: only 0 <= 0 remains
            mag_a == 0 && mag_b == 0
        }
    }
}

} // verus!
