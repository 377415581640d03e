//! A sidechain-driven symmetric clipper.
//!
//! The library models audio amplitudes as fixed-point values: an `i64`
//! counting micro-units, so that `MICRO` units stand for an amplitude of one.
//! A primary stereo pair is hard-clipped into an envelope that shrinks as the
//! instantaneous amplitude of a sidechain stereo pair grows. Two control
//! parameters, a threshold and a sidechain gain, are held in a parameter
//! store that a control surface reads and writes by index.

use vstd::prelude::*;

pub mod block;
pub mod clipper;
pub mod display;
pub mod fixed;
pub mod info;
pub mod params;

verus! {

/// Number of fixed-point units in an amplitude of one.
pub const MICRO: i64 = 1_000_000;

/// Default value of the sidechain gain parameter, in micro-units (an
/// amplitude of one fifth). The gain parameter is normalized by this
/// default before it scales the sidechain signal.
pub const SIDECHAIN_GAIN_DEFAULT: i64 = 200_000;

/// Largest amplitude magnitude the processor accepts, in micro-units.
/// Keeping samples within this range keeps every intermediate product
/// of the envelope computation inside `i64`.
pub const AMP_LIMIT: i64 = 1_000_000_000_000;

} // verus!
