//! Readings are IEEE-754 single-precision values, held as their 32-bit patterns.
//! This module orders such patterns exactly as the floating-point `>` does.

use vstd::prelude::*;

verus! {

/// The sign bit of a binary32 pattern.
pub const SIGN_BIT: u32 = 0x8000_0000;

/// The pattern of positive infinity: every exponent bit set, mantissa zero.
pub const INFINITY_BITS: u32 = 0x7f80_0000;

/// Whether the sign bit of `bits` is set.
pub open spec fn sign_set(bits: u32) -> bool {
    bits >= SIGN_BIT
}

/// The pattern without its sign bit: exponent and mantissa.
pub open spec fn magnitude(bits: u32) -> int {
    (bits % SIGN_BIT) as int
}

/// A NaN: every exponent bit set and a mantissa that is not zero.
pub open spec fn is_nan(bits: u32) -> bool {
    magnitude(bits) > INFINITY_BITS
}

/// For patterns that are not NaN, the value's position on the number line:
/// larger keys are larger values, and `+0.0` and `-0.0` share the key 0.
pub open spec fn order_key(bits: u32) -> int {
    if sign_set(bits) {
        -magnitude(bits)
    } else {
        magnitude(bits)
    }
}

/// `value > limit` as floating point compares: false when either side is NaN.
pub open spec fn greater(value: u32, limit: u32) -> bool {
    &&& !is_nan(value)
    &&& !is_nan(limit)
    &&& order_key(value) > order_key(limit)
}

/// Whether `bits` is a NaN pattern.
pub fn is_nan_bits(bits: u32) -> (r: bool)
    ensures
        r == is_nan(bits),
{
    bits % SIGN_BIT > INFINITY_BITS
}

fn order_key_of(bits: u32) -> (k: i64)
    ensures
        k == order_key(bits),
{
    let m: i64 = (bits % SIGN_BIT) as i64;
    if bits >= SIGN_BIT {
        -m
    } else {
        m
    }
}

/// Whether the reading `value` is greater than `limit`, as `value > limit` on the
/// two single-precision values.
pub fn exceeds(value: u32, limit: u32) -> (r: bool)
    ensures
        r == greater(value, limit),
{
    if is_nan_bits(value) || is_nan_bits(limit) {
        false
    } else {
        order_key_of(value) > order_key_of(limit)
    }
}

/// `greater` is a strict order: no value exceeds itself, none exceeds a value that
/// exceeds it, and it is transitive.
pub proof fn lemma_greater_is_strict_order(a: u32, b: u32, c: u32)
    ensures
        !greater(a, a),
        greater(a, b) ==> !greater(b, a),
        greater(a, b) && greater(b, c) ==> greater(a, c),
{
}

/// A NaN is never greater than anything, and nothing is greater than a NaN.
pub proof fn lemma_nan_is_unordered(nan: u32, other: u32)
    requires
        is_nan(nan),
    ensures
        !greater(nan, other),
        !greater(other, nan),
{
}

/// Positive and negative zero compare equal: neither exceeds the other.
pub proof fn lemma_zeros_are_equal()
    ensures
        !greater(0, SIGN_BIT),
        !greater(SIGN_BIT, 0),
{
}

/// A NaN is exactly a pattern whose eight exponent bits are all set and whose
/// 23-bit mantissa is not zero.
pub proof fn lemma_nan_layout(bits: u32)
    ensures
        is_nan(bits) <==> ((bits / 0x80_0000) % 256 == 255 && bits % 0x80_0000 != 0),
{
}

/// The comparison on patterns, stated on the patterns themselves: among readings
/// with a clear sign bit a larger pattern is a larger value; among readings with a
/// set sign bit a larger pattern is a smaller value; a non-negative reading exceeds
/// a negative one unless both are zeros; a negative reading never exceeds a
/// non-negative one.
pub proof fn lemma_greater_on_patterns(a: u32, b: u32)
    requires
        !is_nan(a),
        !is_nan(b),
    ensures
        a < SIGN_BIT && b < SIGN_BIT ==> (greater(a, b) <==> a > b),
        a >= SIGN_BIT && b >= SIGN_BIT ==> (greater(a, b) <==> a < b),
        a < SIGN_BIT && b >= SIGN_BIT ==> (greater(a, b) <==> !(a == 0 && b == SIGN_BIT)),
        a >= SIGN_BIT && b < SIGN_BIT ==> !greater(a, b),
{
}

} // verus!
