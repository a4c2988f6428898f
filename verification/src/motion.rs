//! Motion integration, gravity, and the activation impulse for the
//! controlled entity and the obstacles.
use vstd::prelude::*;

use crate::consts::GRAVITY_ACCEL;
use crate::consts::JUMP_VELOCITY;
use crate::consts::SCALE;

verus! {

/// The controlled entity: position, velocity, and the per-round flag that
/// gates gravity. Horizontal position and velocity stay fixed for the whole
/// round.
#[derive(Clone, Copy, Debug, PartialEq, Eq, Structural)]
pub struct Bird {
    pub x: i64,
    pub y: i64,
    pub vx: i64,
    pub vy: i64,
    pub falling: bool,
}

/// Placement tag for an obstacle of a pair; it drives only the spawn-time
/// placement math, never behavior.
#[derive(Clone, Copy, Debug, PartialEq, Eq, Structural)]
pub enum ObstacleRole {
    Upper,
    Lower,
}

/// One obstacle: position and constant leftward velocity. Its vertical
/// velocity is always zero, so no field carries it.
#[derive(Clone, Copy, Debug, PartialEq, Eq, Structural)]
pub struct Obstacle {
    pub x: i64,
    pub y: i64,
    pub vx: i64,
    pub role: ObstacleRole,
}

/// One axis of the motion step: a position `p` moves by exactly
/// `v * dt * SCALE` subpixels over `dt` milliseconds at velocity `v`.
pub open spec fn moved(p: int, v: int, dt: int) -> int {
    p + v * dt * SCALE
}

/// The intermediate products and the sum of the motion step all fit the
/// machine integer width.
pub open spec fn move_fits(p: int, v: int, dt: int) -> bool {
    &&& i64::MIN <= v * dt <= i64::MAX
    &&& i64::MIN <= v * dt * SCALE <= i64::MAX
    &&& i64::MIN <= moved(p, v, dt) <= i64::MAX
}

/// Advances one coordinate of a position by its velocity over `dt`
/// milliseconds.
pub fn integrate_axis(p: i64, v: i64, dt: i64) -> (r: i64)
    requires
        0 <= dt,
        move_fits(p as int, v as int, dt as int),
    ensures
        r == moved(p as int, v as int, dt as int),
{
    p + v * dt * SCALE
}

/// Vertical velocity after one gravity step: while falling is active the
/// velocity loses exactly `GRAVITY_ACCEL * dt`; otherwise it is untouched.
pub open spec fn vy_after_gravity(vy: int, falling: bool, dt: int) -> int {
    if falling {
        vy - GRAVITY_ACCEL * dt
    } else {
        vy
    }
}

/// Applies gravity to the controlled entity for `dt` milliseconds: only the
/// vertical velocity changes, and only while falling is active.
pub fn apply_gravity(bird: &mut Bird, dt: i64)
    requires
        0 <= dt,
        GRAVITY_ACCEL * dt <= i64::MAX,
        i64::MIN <= old(bird).vy - GRAVITY_ACCEL * dt,
    ensures
        final(bird).vy == vy_after_gravity(old(bird).vy as int, old(bird).falling, dt as int),
        final(bird).x == old(bird).x,
        final(bird).y == old(bird).y,
        final(bird).vx == old(bird).vx,
        final(bird).falling == old(bird).falling,
{
    if bird.falling {
        bird.vy = bird.vy - GRAVITY_ACCEL * dt;
    }
}

/// The activation impulse: sets the vertical velocity to the fixed jump
/// impulse, overwriting whatever it was, and turns falling on for the rest
/// of the round.
pub fn jump(bird: &mut Bird)
    ensures
        final(bird).vy == JUMP_VELOCITY,
        final(bird).falling,
        final(bird).x == old(bird).x,
        final(bird).y == old(bird).y,
        final(bird).vx == old(bird).vx,
{
    bird.falling = true;
    bird.vy = JUMP_VELOCITY;
}

/// An obstacle after one motion step: only its horizontal position changes,
/// by exactly `vx * dt * SCALE`.
pub open spec fn obstacle_moved(o: Obstacle, dt: int) -> Obstacle {
    Obstacle { x: moved(o.x as int, o.vx as int, dt) as i64, ..o }
}

/// A whole obstacle set after one motion step.
pub open spec fn obstacles_moved(s: Seq<Obstacle>, dt: int) -> Seq<Obstacle> {
    s.map_values(|o: Obstacle| obstacle_moved(o, dt))
}

/// Advances every entity carrying a velocity by one motion step: the
/// controlled entity on both axes, each obstacle horizontally (their
/// vertical velocity is zero).
pub fn apply_velocity(bird: &mut Bird, obstacles: &mut Vec<Obstacle>, dt: i64)
    requires
        0 <= dt,
        move_fits(old(bird).x as int, old(bird).vx as int, dt as int),
        move_fits(old(bird).y as int, old(bird).vy as int, dt as int),
        forall|i: int|
            0 <= i < old(obstacles)@.len() ==> move_fits(
                old(obstacles)@[i].x as int,
                old(obstacles)@[i].vx as int,
                dt as int,
            ),
    ensures
        final(bird).x == moved(old(bird).x as int, old(bird).vx as int, dt as int),
        final(bird).y == moved(old(bird).y as int, old(bird).vy as int, dt as int),
        final(bird).vx == old(bird).vx,
        final(bird).vy == old(bird).vy,
        final(bird).falling == old(bird).falling,
        final(obstacles)@ == obstacles_moved(old(obstacles)@, dt as int),
{
    bird.x = integrate_axis(bird.x, bird.vx, dt);
    bird.y = integrate_axis(bird.y, bird.vy, dt);
    let n = obstacles.len();
    let mut i: usize = 0;
    while i < n
        invariant
            0 <= i <= n,
            n == obstacles@.len(),
            n == old(obstacles)@.len(),
            0 <= dt,
            forall|j: int|
                0 <= j < n ==> move_fits(
                    old(obstacles)@[j].x as int,
                    old(obstacles)@[j].vx as int,
                    dt as int,
                ),
            forall|j: int| i <= j < n ==> obstacles@[j] == old(obstacles)@[j],
            forall|j: int|
                0 <= j < i ==> obstacles@[j] == obstacle_moved(old(obstacles)@[j], dt as int),
        decreases n - i,
    {
        let o = obstacles[i];
        let nx = integrate_axis(o.x, o.vx, dt);
        obstacles.set(i, Obstacle { x: nx, ..o });
        i = i + 1;
    }
    assert(obstacles@ =~= obstacles_moved(old(obstacles)@, dt as int));
}

} // verus!
