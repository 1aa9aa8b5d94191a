//! Scalar values as IEEE-754 double bit patterns.
//!
//! The builders in this crate store and hand around every scalar as the
//! raw bit pattern of an IEEE-754 binary64 value. This module gives the
//! few facts about such bit patterns that the builders themselves need:
//! which patterns denote NaN, and the standard `>=` ordering, written
//! out over sign and magnitude exactly as IEEE-754 defines it.

use vstd::prelude::*;

verus! {

/// Sign bit of a binary64 bit pattern.
pub const F64_SIGN_MASK: u64 = 0x8000_0000_0000_0000;

/// Magnitude (exponent and mantissa) of a binary64 bit pattern.
pub const F64_MAG_MASK: u64 = 0x7FFF_FFFF_FFFF_FFFF;

/// Exponent field of a binary64 bit pattern, all ones.
pub const F64_EXP_MASK: u64 = 0x7FF0_0000_0000_0000;

/// Bit pattern of 1.0.
pub const F64_ONE_BITS: u64 = 0x3FF0_0000_0000_0000;

/// Bit pattern of -1.0.
pub const F64_NEG_ONE_BITS: u64 = 0xBFF0_0000_0000_0000;

/// Bit pattern of 90.0.
pub const F64_NINETY_BITS: u64 = 0x4056_8000_0000_0000;

/// Bit pattern of -90.0.
pub const F64_NEG_NINETY_BITS: u64 = 0xC056_8000_0000_0000;

/// The magnitude of a bit pattern: the value with the sign bit cleared.
pub open spec fn magnitude_bits(a: u64) -> u64 {
    a & F64_MAG_MASK
}

/// Whether the sign bit is set.
pub open spec fn sign_bits(a: u64) -> bool {
    a & F64_SIGN_MASK != 0
}

/// A binary64 value is NaN exactly when its exponent field is all ones
/// and its mantissa is nonzero, i.e. when its magnitude exceeds the
/// magnitude of infinity.
pub open spec fn is_nan_bits(a: u64) -> bool {
    magnitude_bits(a) > F64_EXP_MASK
}

/// The IEEE-754 `>=` comparison, written over bit patterns: false when
/// either side is NaN; all zero values are equal regardless of sign;
/// otherwise sign-magnitude order.
pub open spec fn float_ge_bits(a: u64, b: u64) -> bool {
    if is_nan_bits(a) || is_nan_bits(b) {
        false
    } else if magnitude_bits(a) == 0 && magnitude_bits(b) == 0 {
        true
    } else if !sign_bits(a) && !sign_bits(b) {
        magnitude_bits(a) >= magnitude_bits(b)
    } else if sign_bits(a) && sign_bits(b) {
        magnitude_bits(b) >= magnitude_bits(a)
    } else {
        !sign_bits(a)
    }
}

/// A bound pair as a setter that reorders would store it: swapped when
/// the lower argument compares `>=` the upper one, kept as given
/// otherwise (so a NaN on either side keeps the given order).
pub open spec fn normalized_pair(lower: u64, upper: u64) -> (u64, u64) {
    if float_ge_bits(lower, upper) {
        (upper, lower)
    } else {
        (lower, upper)
    }
}

/// Runs the IEEE-754 `>=` comparison on two bit patterns.
pub fn ge_bits(a: u64, b: u64) -> (r: bool)
    ensures
        r == float_ge_bits(a, b),
{
    let mag_a = a & F64_MAG_MASK;
    let mag_b = b & F64_MAG_MASK;
    if mag_a > F64_EXP_MASK || mag_b > F64_EXP_MASK {
        false
    } else if mag_a == 0 && mag_b == 0 {
        true
    } else {
        let neg_a = a & F64_SIGN_MASK != 0;
        let neg_b = b & F64_SIGN_MASK != 0;
        if !neg_a && !neg_b {
            mag_a >= mag_b
        } else if neg_a && neg_b {
            mag_b >= mag_a
        } else {
            !neg_a
        }
    }
}

/// On two non-NaN values the `>=` order is total: when `a >= b` fails,
/// `b >= a` holds.
pub proof fn lemma_float_ge_total(a: u64, b: u64)
    requires
        !is_nan_bits(a),
        !is_nan_bits(b),
    ensures
        float_ge_bits(a, b) || float_ge_bits(b, a),
{
}

/// A reordering setter leaves the pair ordered: as long as neither side
/// is NaN, the stored upper bound compares `>=` the stored lower bound.
pub proof fn lemma_normalized_pair_ordered(lower: u64, upper: u64)
    requires
        !is_nan_bits(lower),
        !is_nan_bits(upper),
    ensures
        float_ge_bits(normalized_pair(lower, upper).1, normalized_pair(lower, upper).0),
{
    lemma_float_ge_total(lower, upper);
}

} // verus!
