//! Tests of the per-sample algorithm and whole-block processing.

use sidedist::block::{process, Block};
use sidedist::clipper::{amp_max, amp_min, clip, process_sample};
use sidedist::fixed::{normalized_gain, scaled_mul};
use sidedist::params::ParamStore;
use sidedist::{AMP_LIMIT, MICRO, SIDECHAIN_GAIN_DEFAULT};

fn default_norm_gain() -> i64 {
    normalized_gain(SIDECHAIN_GAIN_DEFAULT)
}

#[test]
fn clip_above_upper_limit() {
    assert_eq!(clip(1_500_000, 1_000_000, -1_000_000), 1_000_000);
}

#[test]
fn clip_below_lower_limit() {
    assert_eq!(clip(-1_500_000, 1_000_000, -1_000_000), -1_000_000);
}

#[test]
fn clip_inside_range_unchanged() {
    assert_eq!(clip(300_000, 1_000_000, -1_000_000), 300_000);
    assert_eq!(clip(0, 1_000_000, -1_000_000), 0);
}

#[test]
fn clip_on_boundary_unchanged() {
    assert_eq!(clip(1_000_000, 1_000_000, -1_000_000), 1_000_000);
    assert_eq!(clip(-1_000_000, 1_000_000, -1_000_000), -1_000_000);
    assert_eq!(clip(0, 0, 0), 0);
}

#[test]
fn amp_max_and_min() {
    assert_eq!(amp_max(0, 700_000), 700_000);
    assert_eq!(amp_max(0, -700_000), 0);
    assert_eq!(amp_min(0, -700_000), -700_000);
    assert_eq!(amp_min(0, 700_000), 0);
}

#[test]
fn scaled_mul_floors_toward_negative_infinity() {
    assert_eq!(scaled_mul(1, 500_000), 0);
    assert_eq!(scaled_mul(-1, 500_000), -1);
    assert_eq!(scaled_mul(3, 500_000), 1);
    assert_eq!(scaled_mul(-3, 500_000), -2);
}

#[test]
fn scaled_mul_exact_products() {
    assert_eq!(scaled_mul(500_000, MICRO), 500_000);
    assert_eq!(scaled_mul(-500_000, MICRO), -500_000);
    assert_eq!(scaled_mul(AMP_LIMIT, 5 * MICRO), 5 * AMP_LIMIT);
    assert_eq!(scaled_mul(-AMP_LIMIT, 5 * MICRO), -5 * AMP_LIMIT);
    assert_eq!(scaled_mul(123, 0), 0);
}

#[test]
fn normalized_gain_at_default_is_one() {
    assert_eq!(normalized_gain(SIDECHAIN_GAIN_DEFAULT), MICRO);
}

#[test]
fn normalized_gain_is_five_times_parameter() {
    assert_eq!(normalized_gain(0), 0);
    assert_eq!(normalized_gain(400_000), 2 * MICRO);
    assert_eq!(normalized_gain(MICRO), 5 * MICRO);
}

#[test]
fn zero_sidechain_clips_symmetrically_at_threshold() {
    let ng = default_norm_gain();
    assert_eq!(process_sample(1_000_000, 500_000, 0, ng), 500_000);
    assert_eq!(process_sample(-1_000_000, 500_000, 0, ng), -500_000);
    assert_eq!(process_sample(300_000, 500_000, 0, ng), 300_000);
    assert_eq!(process_sample(500_000, 500_000, 0, ng), 500_000);
}

#[test]
fn sidechain_ducks_the_upper_limit() {
    // Threshold one, default gain, sidechain at one half: the upper
    // limit shrinks to one half, so a sample below the raw threshold is
    // still clipped.
    let ng = default_norm_gain();
    assert_eq!(process_sample(800_000, MICRO, 500_000, ng), 500_000);
}

#[test]
fn negative_sidechain_ducks_the_lower_limit() {
    let ng = default_norm_gain();
    // Sidechain at minus one half raises the lower limit to minus one
    // half and leaves the upper limit at the threshold.
    assert_eq!(process_sample(-800_000, MICRO, -500_000, ng), -500_000);
    assert_eq!(process_sample(800_000, MICRO, -500_000, ng), 800_000);
}

#[test]
fn strong_sidechain_closes_the_envelope_to_zero() {
    let ng = default_norm_gain();
    // Sidechain past the threshold: the upper limit floors at zero.
    assert_eq!(process_sample(800_000, 500_000, 2 * MICRO, ng), 0);
}

fn block_with(inputs: Vec<i64>, sidechain: Vec<i64>) -> Block {
    let frames = inputs.len();
    Block {
        input_left: inputs.clone(),
        input_right: inputs,
        sidechain_left: sidechain.clone(),
        sidechain_right: sidechain,
        output_left: vec![0; frames],
        output_right: vec![0; frames],
    }
}

#[test]
fn block_clips_at_half_threshold_without_sidechain() {
    let mut params = ParamStore::default();
    params.set_value(0, 500_000);
    let mut block = block_with(vec![1_000_000, -1_000_000, 300_000], vec![0, 0, 0]);
    process(&mut block, &params);
    assert_eq!(block.output_left, vec![500_000, -500_000, 300_000]);
    assert_eq!(block.output_right, vec![500_000, -500_000, 300_000]);
}

#[test]
fn block_ducks_with_sidechain() {
    let params = ParamStore::default();
    let mut block = block_with(vec![800_000], vec![500_000]);
    process(&mut block, &params);
    assert_eq!(block.output_left, vec![500_000]);
    assert_eq!(block.output_right, vec![500_000]);
}

#[test]
fn block_channels_are_independent() {
    let params = ParamStore::default();
    let mut block = Block {
        input_left: vec![800_000, 800_000],
        input_right: vec![-800_000, 200_000],
        sidechain_left: vec![500_000, 0],
        sidechain_right: vec![0, 0],
        output_left: vec![0, 0],
        output_right: vec![0, 0],
    };
    process(&mut block, &params);
    assert_eq!(block.output_left, vec![500_000, 800_000]);
    assert_eq!(block.output_right, vec![-800_000, 200_000]);
}

#[test]
fn block_leaves_inputs_unchanged() {
    let params = ParamStore::default();
    let mut block = block_with(vec![900_000, -100_000], vec![250_000, 0]);
    process(&mut block, &params);
    assert_eq!(block.input_left, vec![900_000, -100_000]);
    assert_eq!(block.sidechain_left, vec![250_000, 0]);
}

#[test]
fn empty_block_processes() {
    let params = ParamStore::default();
    let mut block = block_with(vec![], vec![]);
    process(&mut block, &params);
    assert_eq!(block.output_left, Vec::<i64>::new());
    assert_eq!(block.output_right, Vec::<i64>::new());
}
