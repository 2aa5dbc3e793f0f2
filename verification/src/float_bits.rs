//! Single-precision magnitudes, represented by their raw bit patterns.
//!
//! Verified code holds no floating-point values, so every sensor magnitude
//! in this library is carried as the `u32` bit pattern of the corresponding
//! single-precision number. The spec functions here give those patterns the
//! standard numeric order, and the executable comparisons are proved to
//! decide exactly that order: not-a-number compares greater than nothing,
//! and the two zero patterns denote the same number.

use vstd::prelude::*;

verus! {

/// Mask of the exponent field of a single-precision bit pattern.
pub const EXPONENT_MASK: u32 = 0x7F80_0000;

/// Mask of the fraction field of a single-precision bit pattern.
pub const FRACTION_MASK: u32 = 0x007F_FFFF;

/// Mask of the sign bit of a single-precision bit pattern.
pub const SIGN_MASK: u32 = 0x8000_0000;

/// A pattern denotes not-a-number when its exponent field is all ones and
/// its fraction field is not zero.
pub open spec fn is_nan(bits: u32) -> bool {
    (bits & EXPONENT_MASK) == EXPONENT_MASK && (bits & FRACTION_MASK) != 0
}

/// The two patterns that denote the number zero: all bits clear, or only
/// the sign bit set.
pub open spec fn is_zero(bits: u32) -> bool {
    bits == 0 || bits == SIGN_MASK
}

/// A monotone key for the numeric order: patterns with the sign bit set
/// denote negative values and are reflected below the rest. For any two
/// patterns that denote numbers, the keys compare as the denoted values do,
/// except that the two zero patterns receive adjacent keys and are equated
/// separately by the comparisons below.
pub open spec fn order_key(bits: u32) -> int {
    if bits >= SIGN_MASK {
        0xFFFF_FFFF - bits
    } else {
        bits + SIGN_MASK
    }
}

/// The single-precision strict greater-than: false whenever either operand
/// is not-a-number, false when both operands denote zero, and otherwise
/// decided by the numeric order of the denoted values.
pub open spec fn float_gt(a: u32, b: u32) -> bool {
    &&& !is_nan(a)
    &&& !is_nan(b)
    &&& !(is_zero(a) && is_zero(b))
    &&& order_key(a) > order_key(b)
}

/// The single-precision less-than-or-equal: false whenever either operand
/// is not-a-number, true when both operands denote zero, and otherwise
/// decided by the numeric order of the denoted values.
pub open spec fn float_le(a: u32, b: u32) -> bool {
    &&& !is_nan(a)
    &&& !is_nan(b)
    &&& (order_key(a) <= order_key(b) || (is_zero(a) && is_zero(b)))
}

/// Decides whether `bits` denotes not-a-number.
pub fn bits_is_nan(bits: u32) -> (r: bool)
    ensures
        r == is_nan(bits),
{
    (bits & EXPONENT_MASK) == EXPONENT_MASK && (bits & FRACTION_MASK) != 0
}

/// Decides whether `bits` denotes the number zero.
pub fn bits_is_zero(bits: u32) -> (r: bool)
    ensures
        r == is_zero(bits),
{
    bits == 0 || bits == SIGN_MASK
}

/// Computes the monotone order key of a pattern.
fn key(bits: u32) -> (k: u32)
    ensures
        k == order_key(bits),
{
    if bits >= SIGN_MASK {
        0xFFFF_FFFFu32 - bits
    } else {
        bits + SIGN_MASK
    }
}

/// Decides the single-precision strict greater-than on two bit patterns.
pub fn bits_gt(a: u32, b: u32) -> (r: bool)
    ensures
        r == float_gt(a, b),
{
    if bits_is_nan(a) || bits_is_nan(b) {
        false
    } else if bits_is_zero(a) && bits_is_zero(b) {
        false
    } else {
        key(a) > key(b)
    }
}

/// Decides the single-precision less-than-or-equal on two bit patterns.
pub fn bits_le(a: u32, b: u32) -> (r: bool)
    ensures
        r == float_le(a, b),
{
    if bits_is_nan(a) || bits_is_nan(b) {
        false
    } else if bits_is_zero(a) && bits_is_zero(b) {
        true
    } else {
        key(a) <= key(b)
    }
}

/// For two patterns that denote numbers, strict greater-than and
/// less-than-or-equal are exact opposites: every reading at or below a
/// threshold is classified as not above it, and every reading above is.
pub proof fn lemma_gt_le_exclusive(a: u32, b: u32)
    requires
        !is_nan(a),
        !is_nan(b),
    ensures
        float_gt(a, b) <==> !float_le(a, b),
{
}

/// No pattern is strictly greater than itself: a reading that equals the
/// threshold exactly is not above it.
pub proof fn lemma_gt_irreflexive(a: u32)
    ensures
        !float_gt(a, a),
{
}

/// Not-a-number is strictly greater than nothing, and nothing is strictly
/// greater than it.
pub proof fn lemma_nan_gt_nothing(a: u32, b: u32)
    requires
        is_nan(a) || is_nan(b),
    ensures
        !float_gt(a, b),
        !float_gt(b, a),
{
}

} // verus!
