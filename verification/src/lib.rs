//! Simulation core of a side-scrolling arcade game on a horizontally
//! wrap-around playfield.
//!
//! All world-space scalars are fixed-point numbers: an `i64` counts
//! micro-units, so `SCALE` (one million) stands for 1.0. Horizontal world
//! positions live on a circle of circumference [`PLAYFIELD_WIDTH`]; the
//! toroidal math in [`playfield`] keeps them normalized and projects them
//! into screen space with per-layer parallax.

use vstd::prelude::*;

pub mod explosion;
pub mod game_state;
pub mod laser;
pub mod mountains;
pub mod playfield;
pub mod rng;
pub mod saucer;
pub mod ship;
pub mod smoothing;
pub mod stars;
pub mod treasure;
pub mod trig;

verus! {

/// Number of micro-units in 1.0 of world space: the fixed-point scale.
pub const SCALE: i64 = 1_000_000;

/// Virtual width of the playfield, in micro-units (8.0 world units).
pub const PLAYFIELD_WIDTH: i64 = 8_000_000;

/// Longest tick the simulation accepts, in micro-seconds (one second): a
/// machine limit that keeps every per-tick product inside `i64`, far above
/// any frame duration an external clock supplies.
pub const MAX_DT: i64 = 1_000_000;

} // verus!
