//! Tests of the parameter store, its display text, and the effect's
//! fixed identity.

use sidedist::info::{capability_support, effect_category, effect_info, effect_name, Support};
use sidedist::params::ParamStore;
use sidedist::{MICRO, SIDECHAIN_GAIN_DEFAULT};

#[test]
fn defaults() {
    let p = ParamStore::default();
    assert_eq!(p.get_value(0), MICRO);
    assert_eq!(p.get_value(1), SIDECHAIN_GAIN_DEFAULT);
}

#[test]
fn set_get_round_trip() {
    let mut p = ParamStore::default();
    p.set_value(0, 730_000);
    assert_eq!(p.get_value(0), 730_000);
    p.set_value(1, 250_000);
    assert_eq!(p.get_value(1), 250_000);
    // The writes are independent.
    assert_eq!(p.get_value(0), 730_000);
}

#[test]
fn out_of_range_index_reads_zero() {
    let p = ParamStore::default();
    assert_eq!(p.get_value(2), 0);
    assert_eq!(p.get_value(-1), 0);
}

#[test]
fn out_of_range_index_name_is_empty() {
    let p = ParamStore::default();
    assert_eq!(p.get_name(2), "");
}

#[test]
fn out_of_range_write_is_ignored() {
    let mut p = ParamStore::default();
    p.set_value(2, 999_999);
    assert_eq!(p.get_value(0), MICRO);
    assert_eq!(p.get_value(1), SIDECHAIN_GAIN_DEFAULT);
    assert_eq!(p.get_value(2), 0);
}

#[test]
fn parameter_names() {
    let p = ParamStore::default();
    assert_eq!(p.get_name(0), "Threshold");
    assert_eq!(p.get_name(1), "Sidechain Gain");
}

#[test]
fn gain_display_shows_normalized_multiplier() {
    let mut p = ParamStore::default();
    p.set_value(1, 400_000);
    assert_eq!(p.get_display_text(1), "2.00");
}

#[test]
fn display_text_defaults() {
    let p = ParamStore::default();
    assert_eq!(p.get_display_text(0), "1.00");
    // The default gain normalizes to a multiplier of exactly one.
    assert_eq!(p.get_display_text(1), "1.00");
}

#[test]
fn display_text_extremes() {
    let mut p = ParamStore::default();
    p.set_value(0, 0);
    assert_eq!(p.get_display_text(0), "0.00");
    p.set_value(1, MICRO);
    assert_eq!(p.get_display_text(1), "5.00");
}

#[test]
fn display_text_rounds_to_two_decimals() {
    let mut p = ParamStore::default();
    p.set_value(0, 123_456);
    assert_eq!(p.get_display_text(0), "0.12");
    p.set_value(0, 125_000);
    assert_eq!(p.get_display_text(0), "0.13");
    p.set_value(0, 124_999);
    assert_eq!(p.get_display_text(0), "0.12");
}

#[test]
fn out_of_range_index_display_is_empty() {
    let p = ParamStore::default();
    assert_eq!(p.get_display_text(2), "");
}

#[test]
fn effect_identity() {
    let info = effect_info();
    assert_eq!(info.unique_id, 20210808);
    assert_eq!(info.inputs, 4);
    assert_eq!(info.outputs, 2);
    assert_eq!(info.parameters, 2);
    assert_eq!(effect_name(), "SideDist");
    assert_eq!(effect_category(), "Effect");
}

#[test]
fn declines_midi_and_leaves_the_rest_open() {
    assert_eq!(capability_support(true), Support::No);
    assert_eq!(capability_support(false), Support::Maybe);
}
