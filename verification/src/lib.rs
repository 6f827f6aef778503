//! Frame-to-rep analysis engine for exercise tracking.
//!
//! Per video frame the engine takes a flat buffer of 2D body-joint
//! positions with per-joint confidences and produces, for a configured
//! exercise, a running repetition count, a movement-phase classification,
//! a list of form-violation signals and a continuous engagement score.
//!
//! All quantities are fixed-point integers:
//! - coordinates in milli-units,
//! - confidences and fractions in per-mille (`1000` = `1.0`),
//! - angles in centidegrees (`18000` = `180`°),
//! - timestamps in milliseconds.

use vstd::prelude::*;

pub mod angles;
pub mod engagement;
pub mod form;
pub mod geometry;
pub mod phase;
pub mod pose;
pub mod profile;
pub mod rep_counter;
pub mod session;
pub mod units;

verus! {

} // verus!
