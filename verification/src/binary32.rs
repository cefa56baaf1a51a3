//! IEEE 754 binary32 values as 32-bit patterns.
//!
//! A pattern has a sign bit (bit 31), an 8-bit biased exponent (bits 30..23)
//! and a 23-bit fraction (bits 22..0). An exponent of 255 with a non-zero
//! fraction is NaN, with a zero fraction an infinity. Every other pattern
//! denotes the finite number
//!
//! ```text
//! (-1)^sign * significand * 2^(max(exponent, 1) - 150)
//! ```
//!
//! where the significand is the fraction, plus 2^23 unless the exponent is 0.
//! The specifications in this module speak of that number through
//! [`scaled`], its product with 2^149, which is an integer.
//!
//! The operations here are those that IEEE 754 defines on the encoding alone,
//! with no rounding: comparison, equality, negation, and the selection of the
//! lesser or greater of two values.
use core::cmp::Ordering;
use vstd::arithmetic::mul::lemma_mul_strict_inequality;
use vstd::arithmetic::power2::{
    lemma2_to64, lemma_pow2_pos, lemma_pow2_strictly_increases, lemma_pow2_unfold, pow2,
};
use vstd::prelude::*;

verus! {

/// The pattern whose only set bit is the sign bit: negative zero.
pub const SIGN_BIT: u32 = 0x8000_0000;

/// The pattern of positive infinity: all exponent bits set, fraction zero.
pub const INFINITY: u32 = 0x7f80_0000;

/// The weight of the lowest exponent bit, 2^23, which is also the implicit
/// leading bit of a normal significand.
pub const HIDDEN_BIT: u32 = 0x0080_0000;

/// Whether the sign bit of `b` is set. This holds of negative zero and may
/// hold of a NaN.
pub open spec fn sign(b: u32) -> bool {
    b >= SIGN_BIT
}

/// The pattern `b` with its sign bit cleared.
pub open spec fn magnitude(b: u32) -> u32 {
    if b >= SIGN_BIT {
        (b - SIGN_BIT) as u32
    } else {
        b
    }
}

/// The biased exponent field of `b`, from 0 to 255.
pub open spec fn exponent(b: u32) -> nat {
    (magnitude(b) / HIDDEN_BIT) as nat
}

/// The fraction field of `b`, below 2^23.
pub open spec fn fraction(b: u32) -> nat {
    (magnitude(b) % HIDDEN_BIT) as nat
}

/// Whether `b` is a NaN.
pub open spec fn is_nan(b: u32) -> bool {
    magnitude(b) > INFINITY
}

/// Whether `b` is positive or negative zero.
pub open spec fn is_zero(b: u32) -> bool {
    magnitude(b) == 0
}

/// The significand of `b` in units of 2^-23: the fraction, with the implicit
/// leading bit added unless `b` is zero or subnormal.
pub open spec fn significand(b: u32) -> nat {
    if exponent(b) == 0 {
        fraction(b)
    } else {
        HIDDEN_BIT as nat + fraction(b)
    }
}

/// The power of two by which the significand of `b` is multiplied in
/// [`scaled_magnitude`]. Subnormal patterns share the shift of the smallest
/// normal ones.
pub open spec fn shift(b: u32) -> nat {
    if exponent(b) == 0 {
        0
    } else {
        (exponent(b) - 1) as nat
    }
}

/// The absolute value of the number that `b` denotes, times 2^149.
///
/// For an infinity the same formula gives 2^277, which lies above the
/// result for every finite pattern. For a NaN the result has no meaning.
pub open spec fn scaled_magnitude(b: u32) -> nat {
    significand(b) * pow2(shift(b))
}

/// The number that `b` denotes, times 2^149: an integer for every finite
/// pattern, and plus or minus 2^277 for the infinities. Both zeros give 0.
/// For a NaN the result has no meaning.
pub open spec fn scaled(b: u32) -> int {
    if sign(b) {
        -(scaled_magnitude(b) as int)
    } else {
        scaled_magnitude(b) as int
    }
}

/// The pattern `b` read as a sign-and-magnitude integer: the low 31 bits,
/// negated where the sign bit is set. Both zeros have rank 0.
pub open spec fn rank(b: u32) -> int {
    if sign(b) {
        -(magnitude(b) as int)
    } else {
        magnitude(b) as int
    }
}

/// How two patterns compare under IEEE 754: by the numbers they denote,
/// and not at all where either is a NaN. Positive and negative zero are
/// equal.
pub open spec fn order(a: u32, b: u32) -> Option<Ordering> {
    if is_nan(a) || is_nan(b) {
        None
    } else if scaled(a) < scaled(b) {
        Some(Ordering::Less)
    } else if scaled(a) > scaled(b) {
        Some(Ordering::Greater)
    } else {
        Some(Ordering::Equal)
    }
}

/// Whether two patterns are equal under IEEE 754: neither is a NaN and
/// both denote the same number.
pub open spec fn equal(a: u32, b: u32) -> bool {
    !is_nan(a) && !is_nan(b) && scaled(a) == scaled(b)
}

/// The pattern `b` with its sign bit flipped, which is how IEEE 754 negates:
/// every other bit stays, also in a NaN.
pub open spec fn negated(b: u32) -> u32 {
    if b >= SIGN_BIT {
        (b - SIGN_BIT) as u32
    } else {
        (b + SIGN_BIT) as u32
    }
}

/// The lesser of two patterns: the one that denotes the smaller number.
/// A NaN is passed over for the other operand, so the result is a NaN only
/// where both are. Where neither is less than the other, which includes
/// zeros of opposite sign, the result is `a`.
pub open spec fn minimum(a: u32, b: u32) -> u32 {
    if is_nan(a) {
        b
    } else if is_nan(b) {
        a
    } else if scaled(b) < scaled(a) {
        b
    } else {
        a
    }
}

/// The greater of two patterns: the one that denotes the larger number.
/// A NaN is passed over for the other operand, so the result is a NaN only
/// where both are. Where neither is greater than the other, which includes
/// zeros of opposite sign, the result is `a`.
pub open spec fn maximum(a: u32, b: u32) -> u32 {
    if is_nan(a) {
        b
    } else if is_nan(b) {
        a
    } else if scaled(b) > scaled(a) {
        b
    } else {
        a
    }
}

/// Clears the sign bit.
fn abs_bits(b: u32) -> (m: u32)
    ensures
        m == magnitude(b),
{
    if b >= SIGN_BIT {
        b - SIGN_BIT
    } else {
        b
    }
}

/// Computes the rank of a pattern.
fn rank_of(b: u32) -> (r: i64)
    ensures
        r == rank(b),
{
    if b >= SIGN_BIT {
        -((b - SIGN_BIT) as i64)
    } else {
        b as i64
    }
}

/// Compares two patterns as IEEE 754 compares the values they encode.
pub fn compare(a: u32, b: u32) -> (r: Option<Ordering>)
    ensures
        r == order(a, b),
{
    if abs_bits(a) > INFINITY || abs_bits(b) > INFINITY {
        return None;
    }
    proof {
        lemma_rank_orders_values(a, b);
        lemma_rank_orders_values(b, a);
    }
    let ra: i64 = rank_of(a);
    let rb: i64 = rank_of(b);
    if ra < rb {
        Some(Ordering::Less)
    } else if ra > rb {
        Some(Ordering::Greater)
    } else {
        Some(Ordering::Equal)
    }
}

/// Tests two patterns for equality as IEEE 754 defines it.
pub fn equals(a: u32, b: u32) -> (r: bool)
    ensures
        r == equal(a, b),
{
    if abs_bits(a) > INFINITY || abs_bits(b) > INFINITY {
        return false;
    }
    proof {
        lemma_rank_orders_values(a, b);
    }
    rank_of(a) == rank_of(b)
}

/// Flips the sign of a pattern.
pub fn negate(b: u32) -> (r: u32)
    ensures
        r == negated(b),
{
    if b >= SIGN_BIT {
        b - SIGN_BIT
    } else {
        b + SIGN_BIT
    }
}

/// Selects the lesser of two patterns.
pub fn min(a: u32, b: u32) -> (r: u32)
    ensures
        r == minimum(a, b),
{
    if abs_bits(a) > INFINITY {
        b
    } else if abs_bits(b) > INFINITY {
        a
    } else {
        proof {
            lemma_rank_orders_values(b, a);
        }
        if rank_of(b) < rank_of(a) {
            b
        } else {
            a
        }
    }
}

/// Selects the greater of two patterns.
pub fn max(a: u32, b: u32) -> (r: u32)
    ensures
        r == maximum(a, b),
{
    if abs_bits(a) > INFINITY {
        b
    } else if abs_bits(b) > INFINITY {
        a
    } else {
        proof {
            lemma_rank_orders_values(a, b);
        }
        if rank_of(b) > rank_of(a) {
            b
        } else {
            a
        }
    }
}

/// The encoding is monotonic: of two patterns, the one with the larger
/// magnitude bits denotes the number of larger absolute value.
pub proof fn lemma_magnitude_orders_values(a: u32, b: u32)
    requires
        magnitude(a) < magnitude(b),
    ensures
        scaled_magnitude(a) < scaled_magnitude(b),
{
    let (ea, eb) = (exponent(a), exponent(b));
    let (sa, sb) = (significand(a) as int, significand(b) as int);
    let (pa, pb) = (pow2(shift(a)) as int, pow2(shift(b)) as int);
    lemma_pow2_pos(shift(a));
    lemma_pow2_pos(shift(b));
    if ea == eb {
        lemma_mul_strict_inequality(sa, sb, pb);
    } else {
        assert(ea < eb);
        // The value of a stays below 2^23 * 2^shift(b), which that of b reaches.
        let bound: int = HIDDEN_BIT * pb;
        assert(bound <= sb * pb) by (nonlinear_arith)
            requires
                bound == HIDDEN_BIT * pb,
                HIDDEN_BIT <= sb,
                pb > 0,
        ;
        if ea == 0 {
            assert(pa == 1) by {
                lemma2_to64();
            }
            assert(sa * pa < bound) by (nonlinear_arith)
                requires
                    pa == 1,
                    sa < HIDDEN_BIT,
                    bound == HIDDEN_BIT * pb,
                    pb > 0,
            ;
        } else {
            // 2 * 2^shift(a) = 2^exponent(a) <= 2^shift(b).
            lemma_pow2_unfold(ea);
            if ea < shift(b) {
                lemma_pow2_strictly_increases(ea, shift(b));
            }
            assert(2 * pa <= pb);
            assert(sa * pa < bound) by (nonlinear_arith)
                requires
                    sa < 2 * HIDDEN_BIT,
                    2 * pa <= pb,
                    pa > 0,
                    bound == HIDDEN_BIT * pb,
            ;
        }
    }
}

/// Only the two zeros denote a number of absolute value 0.
pub proof fn lemma_zero_magnitude(b: u32)
    ensures
        scaled_magnitude(b) == 0 <==> is_zero(b),
{
    assert(scaled_magnitude(0) == 0) by {
        assert(significand(0) == 0);
        assert(0 * pow2(shift(0)) == 0) by (nonlinear_arith);
    }
    if magnitude(b) > 0 {
        lemma_magnitude_orders_values(0, b);
    }
}

/// Patterns compare by rank as the numbers they denote compare by value.
pub proof fn lemma_rank_orders_values(a: u32, b: u32)
    ensures
        rank(a) < rank(b) <==> scaled(a) < scaled(b),
        rank(a) == rank(b) <==> scaled(a) == scaled(b),
{
    lemma_zero_magnitude(a);
    lemma_zero_magnitude(b);
    if magnitude(a) < magnitude(b) {
        lemma_magnitude_orders_values(a, b);
    } else if magnitude(b) < magnitude(a) {
        lemma_magnitude_orders_values(b, a);
    }
}

/// Comparison is reflexive but for NaN, agrees with equality, and turns
/// round with its operands.
pub proof fn lemma_order(a: u32, b: u32)
    ensures
        order(a, a) == (if is_nan(a) {
            None
        } else {
            Some(Ordering::Equal)
        }),
        order(a, b) == Some(Ordering::Equal) <==> equal(a, b),
        order(a, b) == Some(Ordering::Less) <==> order(b, a) == Some(Ordering::Greater),
        order(a, b) is None <==> order(b, a) is None,
{
}

/// Less-than is transitive.
pub proof fn lemma_order_transitive(a: u32, b: u32, c: u32)
    requires
        order(a, b) == Some(Ordering::Less),
        order(b, c) == Some(Ordering::Less),
    ensures
        order(a, c) == Some(Ordering::Less),
{
}

/// Negation keeps the magnitude bits, flips the sign, negates the denoted
/// number, and undoes itself.
pub proof fn lemma_negated(b: u32)
    ensures
        magnitude(negated(b)) == magnitude(b),
        sign(negated(b)) == !sign(b),
        is_nan(negated(b)) == is_nan(b),
        scaled(negated(b)) == -scaled(b),
        negated(negated(b)) == b,
{
}

/// The minimum is one of its operands, a NaN only where both are, and
/// where neither is, it denotes the smaller of the two numbers.
pub proof fn lemma_minimum(a: u32, b: u32)
    ensures
        minimum(a, b) == a || minimum(a, b) == b,
        is_nan(minimum(a, b)) <==> is_nan(a) && is_nan(b),
        !is_nan(a) && !is_nan(b) ==> scaled(minimum(a, b)) <= scaled(a) && scaled(minimum(a, b))
            <= scaled(b),
{
}

/// The maximum is one of its operands, a NaN only where both are, and
/// where neither is, it denotes the larger of the two numbers.
pub proof fn lemma_maximum(a: u32, b: u32)
    ensures
        maximum(a, b) == a || maximum(a, b) == b,
        is_nan(maximum(a, b)) <==> is_nan(a) && is_nan(b),
        !is_nan(a) && !is_nan(b) ==> scaled(maximum(a, b)) >= scaled(a) && scaled(maximum(a, b))
            >= scaled(b),
{
}

} // verus!
