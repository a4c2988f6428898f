//! Round-level laws: properties that relate several systems across one
//! tick, proved once and for all inputs.
use vstd::prelude::*;

use crate::collision::hit;
use crate::collision::out_of_bounds;
use crate::collision::overlaps;
use crate::consts::BIRD_START_X;
use crate::consts::GRAVITY_ACCEL;
use crate::consts::JUMP_VELOCITY;
use crate::consts::MAX_TICK;
use crate::motion::Bird;
use crate::motion::Obstacle;
use crate::reaper::lemma_reaped_element;
use crate::reaper::lemma_reaped_keeps;
use crate::reaper::on_field;
use crate::reaper::reaped;
use crate::spawn::bottom_edge;
use crate::spawn::lower_obstacle;
use crate::spawn::top_edge;
use crate::spawn::upper_obstacle;
use crate::spawn::valid_hole;
use crate::world::GameWorld;
use crate::world::RoundState;

verus! {

/// Every spawned pair opens a gap of exactly the sampled size: the upper
/// obstacle's bottom edge stands strictly above the lower obstacle's top
/// edge, by `hole_size`.
pub proof fn lemma_spawn_gap(hole_size: i64, hole_height: i64)
    requires
        valid_hole(hole_size, hole_height),
    ensures
        bottom_edge(upper_obstacle(hole_size, hole_height)) - top_edge(
            lower_obstacle(hole_size, hole_height),
        ) == hole_size,
        bottom_edge(upper_obstacle(hole_size, hole_height)) > top_edge(
            lower_obstacle(hole_size, hole_height),
        ),
{
}

/// Gravity activation is permanent for the round: a Playing tick that
/// leaves the round running sets the falling flag on an activation input
/// and never clears it otherwise.
pub proof fn lemma_falling_persists(
    w0: GameWorld,
    w1: GameWorld,
    dt: int,
    activate: bool,
    hole_size: i64,
    hole_height: i64,
)
    requires
        GameWorld::playing_post(w0, w1, dt, activate, hole_size, hole_height),
        w1.state == RoundState::Playing,
    ensures
        w1.bird.unwrap().falling == (w0.bird.unwrap().falling || activate),
{
}

/// Before the first activation input of a round, a tick changes nothing
/// about the controlled entity: it hovers at its start data while gravity
/// is inactive.
pub proof fn lemma_hover(
    w0: GameWorld,
    w1: GameWorld,
    dt: int,
    hole_size: i64,
    hole_height: i64,
)
    requires
        GameWorld::playing_post(w0, w1, dt, false, hole_size, hole_height),
        w0.inv(),
        w0.state == RoundState::Playing,
        !w0.bird.unwrap().falling,
        0 <= dt <= MAX_TICK,
        w1.state == RoundState::Playing,
    ensures
        w1.bird.unwrap() == w0.bird.unwrap(),
{
    let b0 = w0.bird.unwrap();
    assert(b0.vy == 0 && b0.vx == 0);
    assert(b0.vy as int * dt * 3 == 0 && b0.vx as int * dt * 3 == 0) by (nonlinear_arith)
        requires
            b0.vy == 0,
            b0.vx == 0,
    ;
}

/// The reaper never affects the game outcome: with the controlled entity
/// at its fixed horizontal position, a hit occurs against the reaped
/// obstacle set exactly when it occurs against the full set, because a
/// culled obstacle is too far left to overlap the entity.
pub proof fn lemma_reaper_preserves_outcome(b: Bird, s: Seq<Obstacle>)
    requires
        b.x == BIRD_START_X,
    ensures
        hit(b, reaped(s)) == hit(b, s),
{
    if hit(b, reaped(s)) && !out_of_bounds(b.y as int) {
        let i = choose|i: int| 0 <= i < reaped(s).len() && overlaps(b, reaped(s)[i]);
        lemma_reaped_element(s, i);
        let j = choose|j: int| 0 <= j < s.len() && s[j] == reaped(s)[i];
        assert(overlaps(b, s[j]));
    }
    if hit(b, s) && !out_of_bounds(b.y as int) {
        let i = choose|i: int| 0 <= i < s.len() && overlaps(b, s[i]);
        assert(on_field(s[i]));
        lemma_reaped_keeps(s, i);
        let j = choose|j: int| 0 <= j < reaped(s).len() && reaped(s)[j] == s[i];
        assert(overlaps(b, reaped(s)[j]));
    }
}

/// While gravity is active, every tick of positive length lowers the
/// vertical velocity by exactly `GRAVITY_ACCEL * dt`, from the jump
/// impulse if this tick activated, else from the previous velocity — so
/// without further input the vertical velocity strictly decreases.
pub proof fn lemma_vy_decreases(
    w0: GameWorld,
    w1: GameWorld,
    dt: int,
    activate: bool,
    hole_size: i64,
    hole_height: i64,
)
    requires
        GameWorld::playing_post(w0, w1, dt, activate, hole_size, hole_height),
        w0.inv(),
        w0.state == RoundState::Playing,
        w0.bird.unwrap().falling || activate,
        0 < dt <= MAX_TICK,
        w1.state == RoundState::Playing,
    ensures
        w1.bird.unwrap().vy == (if activate {
            JUMP_VELOCITY as int
        } else {
            w0.bird.unwrap().vy as int
        }) - GRAVITY_ACCEL * dt,
        !activate ==> w1.bird.unwrap().vy < w0.bird.unwrap().vy,
{
}

} // verus!
