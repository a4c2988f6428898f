//! Core simulation of a side-scrolling reflex game: a controlled entity falls
//! under gravity, player impulses push it upward, and procedurally spawned
//! obstacle pairs scroll toward it; contact with an obstacle or the field
//! bounds ends the round.
//!
//! All quantities are integers in fixed-point units:
//! - time is measured in milliseconds;
//! - positions are measured in subpixels (30_000 subpixels = 1 pixel);
//! - velocities are measured in milli-world-units per second, where one world
//!   unit is 100 pixels, so a velocity `v` moves a position by
//!   `v * dt * SCALE` subpixels over `dt` milliseconds.

pub mod collision;
pub mod consts;
pub mod laws;
pub mod motion;
pub mod reaper;
pub mod spawn;
pub mod world;
