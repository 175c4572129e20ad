//! Scalar arithmetic shared by the pipeline stages: truncating division,
//! asymmetric clamping, and the facts the stage contracts rest on.

use vstd::prelude::*;

verus! {

/// Quotient of `a` divided by a positive `b` under truncating division,
/// which rounds toward zero. This is the division performed by the
/// executable `/` operator on signed integers.
pub open spec fn div_trunc(a: int, b: int) -> int {
    if a >= 0 {
        a / b
    } else {
        -((-a) / b)
    }
}

/// The absolute value of an integer.
pub open spec fn spec_abs(a: int) -> int {
    if a < 0 {
        -a
    } else {
        a
    }
}

/// The larger of two integers.
pub open spec fn spec_max(a: int, b: int) -> int {
    if a < b {
        b
    } else {
        a
    }
}

/// The smaller of two integers.
pub open spec fn spec_min(a: int, b: int) -> int {
    if a > b {
        b
    } else {
        a
    }
}

/// What [`clamp`] returns: `value` saturated into `[min, max]`.
pub open spec fn spec_clamp(value: int, min: int, max: int) -> int {
    if value < min {
        min
    } else if value > max {
        max
    } else {
        value
    }
}

/// Saturates `value` into the closed interval `[min, max]`.
pub fn clamp(value: i64, min: i64, max: i64) -> (r: i64)
    requires
        min <= max,
    ensures
        r == spec_clamp(value as int, min as int, max as int),
{
    if value < min {
        min
    } else if value > max {
        max
    } else {
        value
    }
}

/// Truncating division by a positive divisor keeps the sign of the
/// dividend, and a dividend at least as large as the divisor yields a
/// quotient of at least one.
pub proof fn lemma_div_trunc_sign(a: int, b: int)
    requires
        b > 0,
    ensures
        a >= 0 ==> div_trunc(a, b) >= 0,
        a <= 0 ==> div_trunc(a, b) <= 0,
        a >= b ==> div_trunc(a, b) >= 1,
        a <= -b ==> div_trunc(a, b) <= -1,
{
    if a >= 0 {
        vstd::arithmetic::div_mod::lemma_div_pos_is_pos(a, b);
        if a >= b {
            vstd::arithmetic::div_mod::lemma_div_is_ordered(b, a, b);
            vstd::arithmetic::div_mod::lemma_div_by_self(b);
        }
    } else {
        vstd::arithmetic::div_mod::lemma_div_pos_is_pos(-a, b);
        if a <= -b {
            vstd::arithmetic::div_mod::lemma_div_is_ordered(b, -a, b);
            vstd::arithmetic::div_mod::lemma_div_by_self(b);
        }
    }
}

/// The magnitude of a truncated quotient never exceeds the magnitude of the
/// dividend, so dividing an in-range value by a positive divisor stays in
/// range.
pub proof fn lemma_div_trunc_bounds(a: int, b: int)
    requires
        b > 0,
    ensures
        a >= 0 ==> div_trunc(a, b) <= a,
        a <= 0 ==> div_trunc(a, b) >= a,
{
    if a >= 0 {
        vstd::arithmetic::div_mod::lemma_div_nonincreasing(a, b);
    } else {
        vstd::arithmetic::div_mod::lemma_div_nonincreasing(-a, b);
    }
}

/// Division by a positive number that divides the dividend exactly is
/// inverted by multiplication: `(a / b) * b == a`. This holds for
/// truncating division as well, since an exact quotient needs no rounding.
pub proof fn lemma_div_exact_inverse(a: int, b: int)
    requires
        b > 0,
        a % b == 0,
    ensures
        (a / b) * b == a,
        div_trunc(a, b) * b == a,
{
    vstd::arithmetic::div_mod::lemma_fundamental_div_mod(a, b);
    let q = a / b;
    assert(a == b * q);
    assert(q * b == b * q) by (nonlinear_arith);
    if a < 0 {
        assert((-q) * b + 0 == -(b * q)) by (nonlinear_arith);
        vstd::arithmetic::div_mod::lemma_fundamental_div_mod_converse(-a, b, -q, 0);
        assert((-a) / b == -q);
    }
}

} // verus!
