//! Fixed-point arithmetic primitives.
//!
//! Every proportion, fee, and price in the pool is an unsigned integer scaled
//! by [`PRECISION`]: the integer `1_500_000` stands for the fraction `1.5`.
//! Both operations truncate toward zero (floor, since all operands are
//! non-negative); the truncation direction decides who keeps fractional
//! remainders in fee and proportion computations, so the contracts pin it
//! exactly.

use vstd::prelude::*;

verus! {

/// The fixed-point scale: this integer stands for the fraction `1.0`.
pub const PRECISION: u64 = 1_000_000;

/// The fixed-point product `(a * b) / PRECISION`, truncated toward zero.
pub open spec fn mul_fp(a: int, b: int) -> int {
    (a * b) / (PRECISION as int)
}

/// The fixed-point quotient `(a * PRECISION) / b`, truncated toward zero.
pub open spec fn div_fp(a: int, b: int) -> int {
    (a * (PRECISION as int)) / b
}

/// Fixed-point multiplication: treats both operands as numbers scaled by
/// [`PRECISION`] and returns their product at the same scale, truncated.
/// The intermediate product must fit the working integer width; callers keep
/// their operands within range.
pub fn multiply(a: u64, b: u64) -> (r: u64)
    requires
        a * b <= u64::MAX,
    ensures
        r == mul_fp(a as int, b as int),
{
    let result = a * b;
    result / PRECISION
}

/// Fixed-point division: returns `a / b` at scale [`PRECISION`], truncated.
/// A zero divisor is a broken invariant of the caller, never a recoverable
/// error, so it is excluded here rather than reported.
pub fn divide(a: u64, b: u64) -> (r: u64)
    requires
        b != 0,
        a * PRECISION <= u64::MAX,
    ensures
        r == div_fp(a as int, b as int),
{
    let a_scale = a * PRECISION;
    let result = a_scale / b;
    result
}

/// Scaling by a fraction of at most one never enlarges: for `b <= PRECISION`,
/// `mul_fp(a, b)` lies in `[0, a]`.
pub proof fn lemma_mul_fp_in_range(a: int, b: int) by (nonlinear_arith)
    requires
        a >= 0,
        0 <= b <= PRECISION,
    ensures
        0 <= mul_fp(a, b) <= a,
{
}

/// The mirrored form: for a fraction `a <= PRECISION`, `mul_fp(a, b)` lies in
/// `[0, b]`.
pub proof fn lemma_mul_fp_frac_first(a: int, b: int) by (nonlinear_arith)
    requires
        0 <= a <= PRECISION,
        b >= 0,
    ensures
        0 <= mul_fp(a, b) <= b,
{
}

/// Scaling by a factor of at least one never shrinks.
pub proof fn lemma_mul_fp_at_least(a: int, b: int) by (nonlinear_arith)
    requires
        a >= 0,
        b >= PRECISION,
    ensures
        mul_fp(a, b) >= a,
{
}

/// `mul_fp` is monotone in its second operand.
pub proof fn lemma_mul_fp_monotone(a: int, b1: int, b2: int) by (nonlinear_arith)
    requires
        a >= 0,
        0 <= b1 <= b2,
    ensures
        mul_fp(a, b1) <= mul_fp(a, b2),
{
}

/// A quotient of at most one: for `a <= b`, `div_fp(a, b)` lies in
/// `[0, PRECISION]`.
pub proof fn lemma_div_fp_at_most_one(a: int, b: int) by (nonlinear_arith)
    requires
        0 <= a <= b,
        b > 0,
    ensures
        0 <= div_fp(a, b) <= PRECISION,
{
}

/// A quotient of at least one: for `a >= b`, `div_fp(a, b)` is at least
/// `PRECISION`.
pub proof fn lemma_div_fp_at_least_one(a: int, b: int) by (nonlinear_arith)
    requires
        0 < b <= a,
    ensures
        div_fp(a, b) >= PRECISION,
{
}

/// `div_fp` is monotone in its numerator.
pub proof fn lemma_div_fp_monotone(a1: int, a2: int, b: int) by (nonlinear_arith)
    requires
        0 <= a1 <= a2,
        b > 0,
    ensures
        div_fp(a1, b) <= div_fp(a2, b),
{
}

/// Dividing a quantity by itself yields exactly one.
pub proof fn lemma_div_fp_self(a: int) by (nonlinear_arith)
    requires
        a > 0,
    ensures
        div_fp(a, a) == PRECISION,
{
}

/// Multiplying by exactly one changes nothing.
pub proof fn lemma_mul_fp_one(a: int) by (nonlinear_arith)
    requires
        a >= 0,
    ensures
        mul_fp(PRECISION as int, a) == a,
{
}

/// Truncation loss only ever shrinks a round trip: turning `a` into the
/// fraction `a / b` and scaling `b` back by it returns at most `a`.
pub proof fn lemma_fp_round_trip(a: int, b: int) by (nonlinear_arith)
    requires
        a >= 0,
        b > 0,
    ensures
        0 <= mul_fp(div_fp(a, b), b) <= a,
{
}

/// Proportional minting never over-mints: scaling a supply `lp` by the
/// value proportion `(value + d) / value` adds at most `lp * d / value` —
/// the minted amount, weighted by the old value, stays within `lp * d`.
pub proof fn lemma_minted_value_bound(lp: int, value: int, d: int) by (nonlinear_arith)
    requires
        lp >= 0,
        value > 0,
        d >= 0,
    ensures
        (mul_fp(lp, div_fp(value + d, value)) - lp) * value <= lp * d,
{
}

/// A share taken twice through truncation stays under its entitlement: if
/// `m` parts of `l` claim at most `d` out of `r` exactly (`m * r <= d * l`),
/// the truncated fixed-point share pays out at most `d`.
pub proof fn lemma_scaled_share_bound(m: int, l: int, r: int, d: int) by (nonlinear_arith)
    requires
        l > 0,
        0 <= m,
        0 <= r,
        0 <= d,
        m * r <= d * l,
    ensures
        mul_fp(div_fp(m, l), r) <= d,
{
}

/// The same round-trip bound with the scaled factor written first.
pub proof fn lemma_fp_round_trip_rev(a: int, b: int) by (nonlinear_arith)
    requires
        a >= 0,
        b > 0,
    ensures
        0 <= mul_fp(b, div_fp(a, b)) <= a,
{
}

} // verus!
