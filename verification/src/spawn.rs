//! Procedural obstacle generation: the repeating spawn timer and the
//! placement of a vertically-offset obstacle pair around a randomized gap.
use vstd::prelude::*;

use crate::consts::FIELD_HALF_WIDTH;
use crate::consts::MAX_HOLE_HEIGHT;
use crate::consts::MAX_HOLE_SIZE;
use crate::consts::MIN_HOLE_HEIGHT;
use crate::consts::MIN_HOLE_SIZE;
use crate::consts::PIPE_HALF_HEIGHT;
use crate::consts::PIPE_SPEED;
use crate::consts::SPAWN_PERIOD;
use crate::motion::Obstacle;
use crate::motion::ObstacleRole;

verus! {

/// The repeating spawn timer: fires once per period, keeping leftover time
/// across ticks so the cadence stays exact under variable tick length.
#[derive(Clone, Copy, Debug, PartialEq, Eq, Structural)]
pub struct SpawnTimer {
    pub period: i64,
    pub elapsed: i64,
}

/// A well-formed timer: the configured period, with the accumulated time
/// strictly inside one period.
pub open spec fn timer_inv(t: SpawnTimer) -> bool {
    t.period == SPAWN_PERIOD && 0 <= t.elapsed < t.period
}

/// A freshly created timer: nothing accumulated yet.
pub open spec fn fresh_timer() -> SpawnTimer {
    SpawnTimer { period: SPAWN_PERIOD, elapsed: 0 }
}

/// Whether advancing the timer by `dt` milliseconds makes it fire.
pub open spec fn timer_fires(t: SpawnTimer, dt: int) -> bool {
    t.elapsed + dt >= t.period
}

/// Accumulated time after advancing by `dt`: the leftover beyond whole
/// periods is kept, never reset to zero.
pub open spec fn elapsed_after(t: SpawnTimer, dt: int) -> int {
    (t.elapsed + dt) % (t.period as int)
}

/// Advances the timer by `dt` milliseconds and reports whether it fired.
pub fn tick_timer(t: &mut SpawnTimer, dt: i64) -> (fired: bool)
    requires
        0 <= dt,
        0 < old(t).period,
        0 <= old(t).elapsed,
        old(t).elapsed + dt <= i64::MAX,
    ensures
        fired == timer_fires(*old(t), dt as int),
        final(t).period == old(t).period,
        final(t).elapsed == elapsed_after(*old(t), dt as int),
        0 <= final(t).elapsed < final(t).period,
{
    let total = t.elapsed + dt;
    if total >= t.period {
        let left = total % t.period;
        assert(0 <= total as int % (t.period as int) < t.period as int) by (nonlinear_arith)
            requires
                0 <= total,
                0 < t.period,
        ;
        t.elapsed = left;
        true
    } else {
        assert(total as int % (t.period as int) == total as int) by (nonlinear_arith)
            requires
                0 <= total < t.period,
        ;
        t.elapsed = total;
        false
    }
}

/// Gap parameters within the configured bounds: the size in
/// `[MIN_HOLE_SIZE, MAX_HOLE_SIZE)` and the center height in
/// `[MIN_HOLE_HEIGHT, MAX_HOLE_HEIGHT)`.
pub open spec fn valid_hole(hole_size: i64, hole_height: i64) -> bool {
    &&& MIN_HOLE_SIZE <= hole_size < MAX_HOLE_SIZE
    &&& MIN_HOLE_HEIGHT <= hole_height < MAX_HOLE_HEIGHT
}

/// The upper obstacle of a pair: placed at the field's right edge so that
/// its bottom edge sits half a gap above the gap center.
pub open spec fn upper_obstacle(hole_size: i64, hole_height: i64) -> Obstacle {
    Obstacle {
        x: FIELD_HALF_WIDTH,
        y: (PIPE_HALF_HEIGHT + hole_height + (hole_size - hole_size / 2)) as i64,
        vx: (-PIPE_SPEED) as i64,
        role: ObstacleRole::Upper,
    }
}

/// The lower obstacle of a pair: placed at the field's right edge so that
/// its top edge sits half a gap below the gap center.
pub open spec fn lower_obstacle(hole_size: i64, hole_height: i64) -> Obstacle {
    Obstacle {
        x: FIELD_HALF_WIDTH,
        y: (-PIPE_HALF_HEIGHT + hole_height - hole_size / 2) as i64,
        vx: (-PIPE_SPEED) as i64,
        role: ObstacleRole::Lower,
    }
}

/// An obstacle's bottom edge, from its center and fixed half-extent.
pub open spec fn bottom_edge(o: Obstacle) -> int {
    o.y - PIPE_HALF_HEIGHT
}

/// An obstacle's top edge, from its center and fixed half-extent.
pub open spec fn top_edge(o: Obstacle) -> int {
    o.y + PIPE_HALF_HEIGHT
}

/// Appends one obstacle pair for the given gap parameters: both at the
/// field's right edge with the fixed leftward velocity, with the upper
/// obstacle's bottom edge exactly `hole_size` above the lower obstacle's top
/// edge.
pub fn spawn_pipe_couple(obstacles: &mut Vec<Obstacle>, hole_size: i64, hole_height: i64)
    requires
        valid_hole(hole_size, hole_height),
    ensures
        final(obstacles)@ == old(obstacles)@.push(upper_obstacle(hole_size, hole_height)).push(
            lower_obstacle(hole_size, hole_height),
        ),
        bottom_edge(upper_obstacle(hole_size, hole_height)) - top_edge(
            lower_obstacle(hole_size, hole_height),
        ) == hole_size,
{
    let half_lo = hole_size / 2;
    let half_hi = hole_size - half_lo;
    let top_y = PIPE_HALF_HEIGHT + hole_height + half_hi;
    let bottom_y = -PIPE_HALF_HEIGHT + hole_height - half_lo;
    obstacles.push(
        Obstacle { x: FIELD_HALF_WIDTH, y: top_y, vx: -PIPE_SPEED, role: ObstacleRole::Upper },
    );
    obstacles.push(
        Obstacle { x: FIELD_HALF_WIDTH, y: bottom_y, vx: -PIPE_SPEED, role: ObstacleRole::Lower },
    );
}

/// An obstacle set after one spawner pass: when the timer fired, the pair
/// for the given gap parameters is appended; otherwise nothing changes.
pub open spec fn spawned_obstacles(
    s: Seq<Obstacle>,
    fired: bool,
    hole_size: i64,
    hole_height: i64,
) -> Seq<Obstacle> {
    if fired {
        s.push(upper_obstacle(hole_size, hole_height)).push(lower_obstacle(hole_size, hole_height))
    } else {
        s
    }
}

/// One spawner pass: advances the timer by the elapsed time and, when it
/// fires, creates the obstacle pair for the given gap parameters.
pub fn spawn_pipes(
    t: &mut SpawnTimer,
    obstacles: &mut Vec<Obstacle>,
    dt: i64,
    hole_size: i64,
    hole_height: i64,
) -> (fired: bool)
    requires
        0 <= dt,
        0 < old(t).period,
        0 <= old(t).elapsed,
        old(t).elapsed + dt <= i64::MAX,
        valid_hole(hole_size, hole_height),
    ensures
        fired == timer_fires(*old(t), dt as int),
        final(t).period == old(t).period,
        final(t).elapsed == elapsed_after(*old(t), dt as int),
        0 <= final(t).elapsed < final(t).period,
        final(obstacles)@ == spawned_obstacles(old(obstacles)@, fired, hole_size, hole_height),
{
    let fired = tick_timer(t, dt);
    if fired {
        spawn_pipe_couple(obstacles, hole_size, hole_height);
    }
    fired
}

/// Relies on `rand::Rng::gen_range` called on `rand::thread_rng` with a
/// half-open range: it returns a value uniformly drawn from `[lo, hi)` and
/// panics only on an empty range, which the precondition rules out. Nothing
/// more is assumed of which value comes back.
#[verifier::external_body]
fn random_in_range(lo: i64, hi: i64) -> (r: i64)
    requires
        lo < hi,
    ensures
        lo <= r < hi,
{
    rand::Rng::gen_range(&mut rand::thread_rng(), lo..hi)
}

/// Draws gap parameters for one spawn event: a gap size and a gap center,
/// each uniformly from its configured half-open range.
pub fn sample_hole() -> (r: (i64, i64))
    ensures
        valid_hole(r.0, r.1),
{
    let hole_size = random_in_range(MIN_HOLE_SIZE, MAX_HOLE_SIZE);
    let hole_height = random_in_range(MIN_HOLE_HEIGHT, MAX_HOLE_HEIGHT);
    (hole_size, hole_height)
}

} // verus!
