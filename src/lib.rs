//! Per-tick core of a sprite-animated 2D character: a frame timer, an
//! animation cycle over a contiguous range of atlas indices, gravity
//! integration, ground collision and the player state machine that ties
//! them together.
//!
//! All quantities are integers. Time is counted in milliseconds, lengths in
//! micro-units (a millionth of a world unit), velocities in micro-units per
//! millisecond and accelerations in micro-units per square millisecond. With
//! these units an acceleration of `-490` is 490 world units per square second
//! and a velocity of `300_000` is 300 world units per second.
use vstd::prelude::*;

pub mod animation;
pub mod collision;
pub mod kinematics;
pub mod player;
pub mod state;
pub mod timer;

verus! {

/// Why a configuration value was refused.
#[derive(Clone, Copy, Debug, PartialEq, Eq, Structural)]
pub enum ConfigError {
    /// A frame range whose first index lies after its last.
    InvertedRange,
    /// A frame timer whose interval is zero.
    ZeroInterval,
}

} // verus!
