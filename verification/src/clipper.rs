//! The per-sample clipping algorithm: a dynamic envelope computed from the
//! sidechain sample, and a hard clip of the primary sample into it.

use vstd::prelude::*;
use crate::fixed::{norm_gain_spec, scaled_mul, scaled_mul_spec};
use crate::{AMP_LIMIT, MICRO};

verus! {

/// The larger of two amplitudes.
pub open spec fn max_spec(a: int, b: int) -> int {
    if a < b { b } else { a }
}

/// The smaller of two amplitudes.
pub open spec fn min_spec(a: int, b: int) -> int {
    if a < b { a } else { b }
}

/// Hard clip: a sample strictly above the upper limit becomes the upper
/// limit, one strictly below the lower limit becomes the lower limit, and
/// one equal to either limit passes through unchanged.
pub open spec fn clip_spec(signal: int, limit_upper: int, limit_lower: int) -> int {
    if limit_upper < signal {
        limit_upper
    } else if signal < limit_lower {
        limit_lower
    } else {
        signal
    }
}

/// The sidechain's contribution: the sidechain sample scaled by the
/// normalized gain.
pub open spec fn duck_spec(sidechain: int, norm_gain: int) -> int {
    scaled_mul_spec(sidechain, norm_gain)
}

/// Upper bound of the clip envelope, never below zero.
pub open spec fn limit_upper_spec(threshold: int, sidechain: int, norm_gain: int) -> int {
    max_spec(0, threshold - duck_spec(sidechain, norm_gain))
}

/// Lower bound of the clip envelope, never above zero.
pub open spec fn limit_lower_spec(threshold: int, sidechain: int, norm_gain: int) -> int {
    min_spec(0, -threshold - duck_spec(sidechain, norm_gain))
}

/// One fully processed sample: the primary sample clipped into the
/// envelope that the sidechain sample and the threshold define.
pub open spec fn processed_spec(signal: int, threshold: int, sidechain: int, norm_gain: int) -> int {
    clip_spec(
        signal,
        limit_upper_spec(threshold, sidechain, norm_gain),
        limit_lower_spec(threshold, sidechain, norm_gain),
    )
}

/// The larger of two amplitudes.
pub fn amp_max(a: i64, b: i64) -> (r: i64)
    ensures
        r == max_spec(a as int, b as int),
{
    if a < b { b } else { a }
}

/// The smaller of two amplitudes.
pub fn amp_min(a: i64, b: i64) -> (r: i64)
    ensures
        r == min_spec(a as int, b as int),
{
    if a < b { a } else { b }
}

/// Clips a sample into the range between the two limits.
pub fn clip(signal: i64, limit_upper: i64, limit_lower: i64) -> (r: i64)
    ensures
        r == clip_spec(signal as int, limit_upper as int, limit_lower as int),
{
    if limit_upper < signal {
        limit_upper
    } else if signal < limit_lower {
        limit_lower
    } else {
        signal
    }
}

/// Processes one frame of one channel: computes the clip envelope from
/// the sidechain sample and clips the primary sample into it.
pub fn process_sample(signal: i64, threshold: i64, sidechain: i64, norm_gain: i64) -> (r: i64)
    requires
        -AMP_LIMIT <= signal <= AMP_LIMIT,
        0 <= threshold <= MICRO,
        -AMP_LIMIT <= sidechain <= AMP_LIMIT,
        0 <= norm_gain <= 5 * MICRO,
    ensures
        r == processed_spec(signal as int, threshold as int, sidechain as int, norm_gain as int),
{
    let duck = scaled_mul(sidechain, norm_gain);
    let limit_upper = amp_max(0, threshold - duck);
    let limit_lower = amp_min(0, -threshold - duck);
    clip(signal, limit_upper, limit_lower)
}

/// Which value the clip returns, case by case. For a sample strictly
/// outside the envelope the result is the limit it crossed; for one
/// inside, or exactly on a limit, the sample itself. Where the sample and
/// the limits are pairwise distinct, returning a limit happens exactly on
/// a crossing.
pub proof fn lemma_clip_cases(signal: int, limit_upper: int, limit_lower: int)
    requires
        limit_lower <= 0 <= limit_upper,
    ensures
        signal > limit_upper ==> clip_spec(signal, limit_upper, limit_lower) == limit_upper,
        signal < limit_lower ==> clip_spec(signal, limit_upper, limit_lower) == limit_lower,
        limit_lower <= signal <= limit_upper ==> clip_spec(signal, limit_upper, limit_lower)
            == signal,
        signal != limit_upper && signal != limit_lower && limit_upper != limit_lower ==> {
            &&& (clip_spec(signal, limit_upper, limit_lower) == limit_upper <==> signal
                > limit_upper)
            &&& (clip_spec(signal, limit_upper, limit_lower) == limit_lower <==> signal
                < limit_lower)
        },
{
}

/// With a silent sidechain the envelope is symmetric at the threshold:
/// the upper limit is the threshold itself, the lower limit its negation,
/// and every sample is clipped into that fixed range.
pub proof fn lemma_zero_sidechain(threshold: int, norm_gain: int, signal: int)
    requires
        threshold >= 0,
    ensures
        limit_upper_spec(threshold, 0, norm_gain) == threshold,
        limit_lower_spec(threshold, 0, norm_gain) == -threshold,
        processed_spec(signal, threshold, 0, norm_gain) == clip_spec(
            signal,
            threshold,
            -threshold,
        ),
{
    assert(0 * norm_gain == 0) by (nonlinear_arith);
    vstd::arithmetic::div_mod::lemma_div_of0(MICRO as int);
}

/// At the default sidechain gain the normalized gain is exactly one, and
/// the envelope reduces to the threshold shifted by the raw sidechain
/// sample.
pub proof fn lemma_default_gain(threshold: int, sidechain: int)
    ensures
        norm_gain_spec(crate::SIDECHAIN_GAIN_DEFAULT as int) == MICRO as int,
        limit_upper_spec(threshold, sidechain, MICRO as int) == max_spec(0, threshold - sidechain),
        limit_lower_spec(threshold, sidechain, MICRO as int) == min_spec(0, -threshold - sidechain),
{
    crate::fixed::lemma_norm_gain_is_five_times(crate::SIDECHAIN_GAIN_DEFAULT as int);
    vstd::arithmetic::div_mod::lemma_div_multiples_vanish(sidechain, MICRO as int);
    assert(sidechain * (MICRO as int) == (MICRO as int) * sidechain) by (nonlinear_arith);
}

} // verus!
