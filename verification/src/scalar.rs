use vstd::prelude::*;

verus! {

/// The sign bit of an IEEE-754 single-precision bit pattern.
pub const SIGN: u32 = 0x8000_0000;

/// The bit pattern of positive infinity.
pub const INFINITY: u32 = 0x7F80_0000;

/// The bit pattern of positive zero.
pub const ZERO: u32 = 0;

/// The bit pattern without its sign bit: the pattern of the absolute value.
pub open spec fn magnitude(bits: u32) -> u32 {
    (bits % SIGN) as u32
}

/// Whether the sign bit is set.
pub open spec fn negative(bits: u32) -> bool {
    bits >= SIGN
}

/// Whether the pattern stands for no number at all.
pub open spec fn is_nan(bits: u32) -> bool {
    magnitude(bits) > INFINITY
}

/// Where a pattern that stands for a number lies among all of them: the
/// patterns of larger numbers have larger ranks, and the two zeros share
/// rank 0.
pub open spec fn rank(bits: u32) -> int {
    if negative(bits) {
        -(magnitude(bits) as int)
    } else {
        magnitude(bits) as int
    }
}

/// Whether the number of pattern `a` is less than that of pattern `b`.
/// Nothing is less than, or has less than it, what is no number.
pub open spec fn lt(a: u32, b: u32) -> bool {
    !is_nan(a) && !is_nan(b) && rank(a) < rank(b)
}

/// Whether the number of pattern `a` is greater than that of pattern `b`.
pub open spec fn gt(a: u32, b: u32) -> bool {
    lt(b, a)
}

/// The absolute value.
pub fn abs(bits: u32) -> (absolute: u32)
    ensures
        absolute == magnitude(bits),
        !negative(absolute),
{
    bits % SIGN
}

/// Whether the pattern stands for no number.
pub fn nan(bits: u32) -> (none: bool)
    ensures
        none == is_nan(bits),
{
    bits % SIGN > INFINITY
}

/// Compares two patterns as the numbers they stand for.
pub fn less(a: u32, b: u32) -> (smaller: bool)
    ensures
        smaller == lt(a, b),
{
    if nan(a) || nan(b) {
        return false;
    }
    let rank_a: i64 = if a >= SIGN {
        -((a % SIGN) as i64)
    } else {
        a as i64
    };
    let rank_b: i64 = if b >= SIGN {
        -((b % SIGN) as i64)
    } else {
        b as i64
    };
    rank_a < rank_b
}

/// Compares two patterns as the numbers they stand for.
pub fn greater(a: u32, b: u32) -> (larger: bool)
    ensures
        larger == gt(a, b),
{
    less(b, a)
}

/// The order on patterns is a strict order: nothing is less than
/// itself, and what is less than something less than a third is less
/// than the third.
pub proof fn lemma_lt_strict(a: u32, b: u32, c: u32)
    ensures
        !lt(a, a),
        lt(a, b) ==> !lt(b, a),
        lt(a, b) && lt(b, c) ==> lt(a, c),
{
}

} // verus!
