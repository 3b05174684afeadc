//! Beat synchronisation for a tap-tempo performance controller.
//!
//! Eight independently tappable beats are kept in step between a MIDI
//! controller and an OSC rig. All times are whole milliseconds of one
//! monotonic clock, and every tempo, phase and cycle position is an exact
//! ratio of integers, so that what the engine computes can be stated and
//! proved without rounding.

pub mod arith;
pub mod beat;
pub mod broadcast;
pub mod feedback;
pub mod input;
pub mod ports;
pub mod protocol;
pub mod taptempo;
pub mod tempo;

use vstd::prelude::*;

verus! {

/// Number of beats on the controller.
pub const BEAT_COUNT: usize = 8;

/// Length of one period of the feedback and broadcast actors, in
/// milliseconds: each takes its inbox and does its work once per period.
pub const PERIOD_MILLIS: u64 = 10;

} // verus!
