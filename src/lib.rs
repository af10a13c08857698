//! Simulation core of a 2D side-scrolling platformer.
//!
//! Lengths are integers in sub-pixel units (`SUBPIXELS` per screen pixel),
//! velocities are sub-pixels per second, and durations are nanoseconds.
use vstd::prelude::*;

pub mod geometry;
pub mod timer;
pub mod physics;
pub mod jump;
pub mod guy;
pub mod laws;
pub mod level;
pub mod app_state;

verus! {

/// Length units per screen pixel.
pub const SUBPIXELS: i64 = 1000;

/// Bound on the magnitude of any obstacle coordinate, any size and any speed.
pub const WORLD_LIMIT: i64 = 1_000_000_000_000;

} // verus!
