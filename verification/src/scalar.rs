//! Single-precision numbers by their bit patterns: sign, ordering and
//! negation, stated over integers.

use vstd::prelude::*;

verus! {

/// The bit pattern whose only set bit is the sign bit (negative zero).
pub const SIGN: u32 = 0x8000_0000;

/// The bit pattern of positive infinity; larger magnitudes are not numbers.
pub const INFINITY: u32 = 0x7f80_0000;

/// The bit pattern of the number one.
pub const ONE: u32 = 0x3f80_0000;

/// The bit pattern of positive zero.
pub const ZERO: u32 = 0;

/// The pattern without its sign bit.
pub open spec fn magnitude(bits: u32) -> int {
    if bits >= SIGN {
        bits - SIGN
    } else {
        bits as int
    }
}

/// Whether the sign bit is set.
pub open spec fn signed(bits: u32) -> bool {
    bits >= SIGN
}

/// Whether the pattern encodes no number at all.
pub open spec fn nan(bits: u32) -> bool {
    magnitude(bits) > INFINITY
}

/// An integer that orders the patterns of numbers as the numbers themselves
/// are ordered: the magnitude, negated under a sign bit. Both zeros have
/// rank zero.
pub open spec fn rank(bits: u32) -> int {
    if signed(bits) {
        -magnitude(bits)
    } else {
        magnitude(bits)
    }
}

/// The number is strictly greater than zero.
pub open spec fn positive(bits: u32) -> bool {
    !nan(bits) && rank(bits) > 0
}

/// The number is strictly less than zero.
pub open spec fn negative(bits: u32) -> bool {
    !nan(bits) && rank(bits) < 0
}

/// The first number is strictly greater than the second. False as soon as
/// either pattern is not a number.
pub open spec fn exceeds(left: u32, right: u32) -> bool {
    !nan(left) && !nan(right) && rank(left) > rank(right)
}

/// The two patterns encode equal numbers. The two zeros are equal; what is
/// not a number equals nothing, itself included.
pub open spec fn equal(left: u32, right: u32) -> bool {
    !nan(left) && !nan(right) && rank(left) == rank(right)
}

/// The pattern with its sign bit flipped.
pub open spec fn negation(bits: u32) -> u32 {
    if bits >= SIGN {
        (bits - SIGN) as u32
    } else {
        (bits + SIGN) as u32
    }
}

/// Tells whether the pattern encodes no number.
pub fn is_nan(bits: u32) -> (r: bool)
    ensures
        r == nan(bits),
{
    let low: u32 = if bits >= SIGN { bits - SIGN } else { bits };
    low > INFINITY
}

/// The rank of a pattern as a machine integer.
pub fn rank_of(bits: u32) -> (r: i64)
    ensures
        r == rank(bits),
{
    if bits >= SIGN {
        let low: u32 = bits - SIGN;
        let wide: i64 = low as i64;
        -wide
    } else {
        bits as i64
    }
}

/// Tells whether the number is strictly greater than zero.
pub fn is_positive(bits: u32) -> (r: bool)
    ensures
        r == positive(bits),
        r ==> !negative(bits),
{
    0 < bits && bits <= INFINITY
}

/// Tells whether the number is strictly less than zero.
pub fn is_negative(bits: u32) -> (r: bool)
    ensures
        r == negative(bits),
        r ==> !positive(bits),
{
    SIGN < bits && bits - SIGN <= INFINITY
}

/// Tells whether the first number is strictly greater than the second.
pub fn greater(left: u32, right: u32) -> (r: bool)
    ensures
        r == exceeds(left, right),
{
    !is_nan(left) && !is_nan(right) && rank_of(left) > rank_of(right)
}

/// Tells whether the two patterns encode equal numbers.
pub fn same(left: u32, right: u32) -> (r: bool)
    ensures
        r == equal(left, right),
{
    !is_nan(left) && !is_nan(right) && rank_of(left) == rank_of(right)
}

/// Flips the sign bit: the pattern of the negated number.
pub fn negate(bits: u32) -> (r: u32)
    ensures
        r == negation(bits),
        nan(r) == nan(bits),
        rank(r) == -rank(bits),
        positive(r) == negative(bits),
        negative(r) == positive(bits),
{
    if bits >= SIGN {
        bits - SIGN
    } else {
        bits + SIGN
    }
}

/// Negating twice gives the pattern back, bit for bit.
pub proof fn negation_is_involution(bits: u32)
    ensures
        negation(negation(bits)) == bits,
{
}

/// Of two numbers at most one strictly exceeds the other, and equal numbers
/// do not exceed one another.
pub proof fn exceeds_is_strict(left: u32, right: u32)
    ensures
        !(exceeds(left, right) && exceeds(right, left)),
        equal(left, right) ==> !exceeds(left, right),
        !nan(left) && !nan(right) ==> exceeds(left, right) || exceeds(right, left) || equal(
            left,
            right,
        ),
{
}

/// Exceeding is transitive.
pub proof fn exceeds_is_transitive(high: u32, mid: u32, low: u32)
    requires
        exceeds(high, mid),
        exceeds(mid, low),
    ensures
        exceeds(high, low),
{
}

/// Negation reverses the order.
pub proof fn negation_reverses_order(left: u32, right: u32)
    ensures
        exceeds(negation(left), negation(right)) == exceeds(right, left),
{
}

} // verus!
