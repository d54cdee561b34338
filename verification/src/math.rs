use vstd::prelude::*;

use vstd::arithmetic::div_mod::{
    lemma_div_is_ordered, lemma_div_multiples_vanish, lemma_div_pos_is_pos,
    lemma_multiply_divide_lt,
};
use vstd::arithmetic::mul::{
    lemma_mul_inequality, lemma_mul_is_commutative, lemma_mul_nonnegative,
    lemma_mul_strict_inequality, lemma_mul_upper_bound,
};

verus! {

/// The truncating quotient `(a * b) / d` stays within `[0, b]` when the
/// numerator's first factor does not exceed the divisor.
pub proof fn lemma_scaled_quotient_le(a: int, b: int, d: int)
    requires
        0 <= a,
        0 <= b,
        a <= d,
        0 < d,
    ensures
        0 <= (a * b) / d,
        (a * b) / d <= b,
{
    lemma_mul_nonnegative(a, b);
    lemma_div_pos_is_pos(a * b, d);
    lemma_mul_inequality(a, d, b);
    lemma_div_is_ordered(a * b, d * b, d);
    lemma_mul_is_commutative(d, b);
    lemma_div_multiples_vanish(b, d);
}

/// The truncating quotient `(a * b) / d` drops strictly below `b` as soon as
/// the numerator's first factor is strictly below the divisor.
pub proof fn lemma_scaled_quotient_lt(a: int, b: int, d: int)
    requires
        0 <= a,
        0 < b,
        a < d,
    ensures
        (a * b) / d < b,
{
    lemma_mul_strict_inequality(a, d, b);
    lemma_multiply_divide_lt(a * b, d, b);
}

/// A fee of `bps` basis points, rounded down, never exceeds the amount it is
/// taken from, and leaves a positive amount strictly positive.
pub proof fn lemma_fee_bounds(x: int, bps: int)
    requires
        0 <= x,
        0 <= bps,
        bps < 10000,
    ensures
        0 <= (x * bps) / 10000,
        (x * bps) / 10000 <= x,
        0 < x ==> (x * bps) / 10000 < x,
{
    lemma_mul_nonnegative(x, bps);
    lemma_div_pos_is_pos(x * bps, 10000);
    lemma_mul_inequality(bps, 10000, x);
    lemma_mul_is_commutative(bps, x);
    lemma_mul_is_commutative(10000, x);
    lemma_div_is_ordered(x * bps, x * 10000, 10000);
    lemma_div_multiples_vanish(x, 10000);
    if 0 < x {
        lemma_mul_strict_inequality(bps, 10000, x);
        lemma_multiply_divide_lt(x * bps, 10000, x);
    }
}

/// The product of two values in 64-bit range fits the 128-bit range.
pub proof fn lemma_u64_product_fits_u128(x: int, y: int)
    requires
        0 <= x <= u64::MAX,
        0 <= y <= u64::MAX,
    ensures
        0 <= x * y <= u128::MAX,
{
    lemma_mul_nonnegative(x, y);
    lemma_mul_upper_bound(x, u64::MAX as int, y, u64::MAX as int);
    assert((u64::MAX as int) * (u64::MAX as int) <= u128::MAX as int) by (nonlinear_arith);
}

} // verus!
