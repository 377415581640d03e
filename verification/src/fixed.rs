//! Fixed-point arithmetic on amplitudes measured in micro-units.

use vstd::prelude::*;
use crate::{AMP_LIMIT, MICRO, SIDECHAIN_GAIN_DEFAULT};

verus! {

/// Product of two fixed-point values, brought back to micro-units by
/// flooring division.
pub open spec fn scaled_mul_spec(a: int, b: int) -> int {
    (a * b) / (MICRO as int)
}

/// The sidechain gain parameter divided by its default, in micro-units.
pub open spec fn norm_gain_spec(gain: int) -> int {
    (gain * (MICRO as int)) / (SIDECHAIN_GAIN_DEFAULT as int)
}

/// For a positive dividend, negating turns a ceiling quotient into the
/// (Euclidean) quotient of the negated dividend.
proof fn lemma_neg_div(x: int, m: int)
    requires
        x > 0,
        m > 0,
    ensures
        (-x) / m == -((x + m - 1) / m),
{
    let q = x / m;
    let r = x % m;
    vstd::arithmetic::div_mod::lemma_fundamental_div_mod(x, m);
    vstd::arithmetic::div_mod::lemma_mod_pos_bound(x, m);
    if r == 0 {
        assert(x + m - 1 == q * m + (m - 1)) by (nonlinear_arith)
            requires x == m * q + r, r == 0,
        ;
        assert(-x == (-q) * m + 0) by (nonlinear_arith)
            requires x == m * q + r, r == 0,
        ;
        vstd::arithmetic::div_mod::lemma_fundamental_div_mod_converse(x + m - 1, m, q, m - 1);
        vstd::arithmetic::div_mod::lemma_fundamental_div_mod_converse(-x, m, -q, 0);
    } else {
        assert(x + m - 1 == (q + 1) * m + (r - 1)) by (nonlinear_arith)
            requires x == m * q + r,
        ;
        assert(-x == (-(q + 1)) * m + (m - r)) by (nonlinear_arith)
            requires x == m * q + r,
        ;
        vstd::arithmetic::div_mod::lemma_fundamental_div_mod_converse(x + m - 1, m, q + 1, r - 1);
        vstd::arithmetic::div_mod::lemma_fundamental_div_mod_converse(-x, m, -(q + 1), m - r);
    }
}

/// Multiplies an amplitude by a gain, both in micro-units, flooring the
/// result back to micro-units.
pub fn scaled_mul(a: i64, b: i64) -> (r: i64)
    requires
        -AMP_LIMIT <= a <= AMP_LIMIT,
        0 <= b <= 5 * MICRO,
    ensures
        r == scaled_mul_spec(a as int, b as int),
        -5 * AMP_LIMIT <= r <= 5 * AMP_LIMIT,
{
    proof {
        assert(-5_000_000_000_000_000_000int <= a * b <= 5_000_000_000_000_000_000int)
            by (nonlinear_arith)
            requires
                -AMP_LIMIT <= a <= AMP_LIMIT,
                0 <= b <= 5 * MICRO,
                AMP_LIMIT == 1_000_000_000_000,
                MICRO == 1_000_000,
        ;
    }
    let p: i64 = a * b;
    proof {
        vstd::arithmetic::div_mod::lemma_div_is_ordered(
            -5_000_000_000_000_000_000int,
            p as int,
            MICRO as int,
        );
        vstd::arithmetic::div_mod::lemma_div_is_ordered(
            p as int,
            5_000_000_000_000_000_000int,
            MICRO as int,
        );
        assert((-5_000_000_000_000_000_000int) / (MICRO as int) == -5 * AMP_LIMIT);
        assert(5_000_000_000_000_000_000int / (MICRO as int) == 5 * AMP_LIMIT);
    }
    if p >= 0 {
        let q: u64 = (p as u64) / (MICRO as u64);
        q as i64
    } else {
        proof {
            lemma_neg_div(-(p as int), MICRO as int);
        }
        let q: u64 = ((-p) as u64 + (MICRO as u64 - 1)) / (MICRO as u64);
        -(q as i64)
    }
}

/// Normalizes the sidechain gain parameter by its default value. The
/// default is one fifth, so the normalized gain is exactly five times
/// the parameter.
pub fn normalized_gain(gain: i64) -> (r: i64)
    requires
        0 <= gain <= MICRO,
    ensures
        r == norm_gain_spec(gain as int),
        r == 5 * gain,
{
    proof {
        lemma_norm_gain_is_five_times(gain as int);
    }
    5 * gain
}

/// The normalization by the default gain amounts to multiplying by five.
pub proof fn lemma_norm_gain_is_five_times(gain: int)
    ensures
        norm_gain_spec(gain) == 5 * gain,
{
    assert(gain * (MICRO as int) == (5 * gain) * (SIDECHAIN_GAIN_DEFAULT as int))
        by (nonlinear_arith)
        requires
            MICRO == 1_000_000,
            SIDECHAIN_GAIN_DEFAULT == 200_000,
    ;
    vstd::arithmetic::div_mod::lemma_div_multiples_vanish(
        5 * gain,
        SIDECHAIN_GAIN_DEFAULT as int,
    );
}

} // verus!
