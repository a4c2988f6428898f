//! Configuration constants of the simulation, all in fixed-point units.
//!
//! Units: time in milliseconds, positions in subpixels (30_000 subpixels to a
//! pixel), velocities in milli-world-units per second (one world unit is 100
//! pixels). `SCALE` converts a velocity times milliseconds into subpixels.
use vstd::prelude::*;

verus! {

/// Subpixels gained per (velocity unit x millisecond) in the motion step.
pub const SCALE: i64 = 3;

/// Half the visible field width, in subpixels (213.33 pixels).
pub const FIELD_HALF_WIDTH: i64 = 6_400_000;

/// Half the visible field height, in subpixels (120 pixels).
pub const FIELD_HALF_HEIGHT: i64 = 3_600_000;

/// Half an obstacle's collision width, in subpixels (13 pixels).
pub const PIPE_HALF_WIDTH: i64 = 390_000;

/// Half an obstacle's collision height, in subpixels (80 pixels).
pub const PIPE_HALF_HEIGHT: i64 = 2_400_000;

/// Half the controlled entity's collision width, in subpixels (8.5 pixels).
pub const BIRD_HALF_WIDTH: i64 = 255_000;

/// Half the controlled entity's collision height, in subpixels (6 pixels).
pub const BIRD_HALF_HEIGHT: i64 = 180_000;

/// Fixed horizontal start position of the controlled entity, in subpixels
/// (a quarter of the field width left of center).
pub const BIRD_START_X: i64 = -3_200_000;

/// Constant leftward speed of obstacles, in velocity units (2 world units
/// per second).
pub const PIPE_SPEED: i64 = 2_000;

/// Downward acceleration, in velocity units per millisecond (7 world units
/// per second squared).
pub const GRAVITY_ACCEL: i64 = 7;

/// Upward velocity set by an activation impulse, in velocity units.
pub const JUMP_VELOCITY: i64 = 2_000;

/// Period of the repeating obstacle spawn timer, in milliseconds.
pub const SPAWN_PERIOD: i64 = 1_000;

/// Smallest gap size between an obstacle pair, in subpixels (40 pixels).
pub const MIN_HOLE_SIZE: i64 = 1_200_000;

/// Exclusive upper bound on the gap size, in subpixels (100 pixels).
pub const MAX_HOLE_SIZE: i64 = 3_000_000;

/// Smallest gap center height, in subpixels (a quarter field below center).
pub const MIN_HOLE_HEIGHT: i64 = -1_800_000;

/// Exclusive upper bound on the gap center height, in subpixels.
pub const MAX_HOLE_HEIGHT: i64 = 1_800_000;

/// Obstacles whose x coordinate falls strictly below this threshold are
/// destroyed: comfortably off-field left of the visible bound.
pub const CULL_X: i64 = -8_533_333;

/// Largest tick length a single simulation step accepts, in milliseconds;
/// keeps every intermediate product within the machine integer range.
pub const MAX_TICK: i64 = 100_000_000;

/// Largest magnitude the controlled entity's vertical velocity can carry into
/// a tick while the round is still running: a faster entity left the field on
/// the tick that produced that velocity (2 * FIELD_HALF_HEIGHT / SCALE).
pub const VY_BOUND: i64 = 2_400_000;

} // verus!
