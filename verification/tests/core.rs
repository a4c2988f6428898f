//! Unit tests for the individual systems: motion, gravity, input, spawner
//! geometry and bounds, timer cadence, collision predicate, reaper.
use flappy_core::collision::check_collisions;
use flappy_core::consts::BIRD_HALF_HEIGHT;
use flappy_core::consts::BIRD_HALF_WIDTH;
use flappy_core::consts::CULL_X;
use flappy_core::consts::FIELD_HALF_HEIGHT;
use flappy_core::consts::FIELD_HALF_WIDTH;
use flappy_core::consts::JUMP_VELOCITY;
use flappy_core::consts::MAX_HOLE_HEIGHT;
use flappy_core::consts::MAX_HOLE_SIZE;
use flappy_core::consts::MIN_HOLE_HEIGHT;
use flappy_core::consts::MIN_HOLE_SIZE;
use flappy_core::consts::PIPE_HALF_HEIGHT;
use flappy_core::consts::PIPE_HALF_WIDTH;
use flappy_core::consts::PIPE_SPEED;
use flappy_core::consts::SPAWN_PERIOD;
use flappy_core::motion::apply_gravity;
use flappy_core::motion::apply_velocity;
use flappy_core::motion::integrate_axis;
use flappy_core::motion::jump;
use flappy_core::motion::Bird;
use flappy_core::motion::Obstacle;
use flappy_core::motion::ObstacleRole;
use flappy_core::reaper::remove_offscreen_pipes;
use flappy_core::spawn::sample_hole;
use flappy_core::spawn::spawn_pipe_couple;
use flappy_core::spawn::tick_timer;
use flappy_core::spawn::SpawnTimer;

fn hovering_bird() -> Bird {
    Bird { x: 0, y: 0, vx: 0, vy: 0, falling: false }
}

fn obstacle_at(x: i64, y: i64) -> Obstacle {
    Obstacle { x, y, vx: -PIPE_SPEED, role: ObstacleRole::Upper }
}

#[test]
fn motion_formula_exact() {
    // position' = position + velocity * dt * SCALE, with SCALE = 3
    assert_eq!(integrate_axis(10, 2, 5), 10 + 2 * 5 * 3);
    assert_eq!(integrate_axis(-1_000, 7, 0), -1_000);
    assert_eq!(integrate_axis(0, -2_000, 100), -600_000);
}

#[test]
fn motion_moves_bird_and_obstacles() {
    let mut b = Bird { x: 0, y: 100, vx: 0, vy: -10, falling: true };
    let mut obs = vec![obstacle_at(600_000, 42)];
    apply_velocity(&mut b, &mut obs, 100);
    assert_eq!(b.x, 0);
    assert_eq!(b.y, 100 - 10 * 100 * 3);
    assert_eq!(obs[0].x, 600_000 - PIPE_SPEED * 100 * 3);
    assert_eq!(obs[0].y, 42); // obstacles never move vertically
}

#[test]
fn gravity_only_while_falling() {
    let mut b = hovering_bird();
    apply_gravity(&mut b, 50);
    assert_eq!(b.vy, 0); // falling not active: velocity untouched
    b.falling = true;
    b.vy = 90;
    apply_gravity(&mut b, 50);
    assert_eq!(b.vy, 90 - 7 * 50);
}

#[test]
fn jump_overwrites_velocity_and_activates_gravity() {
    let mut b = hovering_bird();
    b.vy = -5_000;
    jump(&mut b);
    assert_eq!(b.vy, JUMP_VELOCITY);
    assert!(b.falling);
    // a second impulse does not stack: it overwrites again
    jump(&mut b);
    assert_eq!(b.vy, JUMP_VELOCITY);
}

#[test]
fn spawn_pair_geometry_exact() {
    let mut obs: Vec<Obstacle> = Vec::new();
    spawn_pipe_couple(&mut obs, 2_000_000, 500_000);
    assert_eq!(obs.len(), 2);
    let upper = obs[0];
    let lower = obs[1];
    assert_eq!(upper.role, ObstacleRole::Upper);
    assert_eq!(lower.role, ObstacleRole::Lower);
    assert_eq!(upper.x, FIELD_HALF_WIDTH);
    assert_eq!(lower.x, FIELD_HALF_WIDTH);
    assert_eq!(upper.vx, -PIPE_SPEED);
    assert_eq!(lower.vx, -PIPE_SPEED);
    let upper_bottom = upper.y - PIPE_HALF_HEIGHT;
    let lower_top = lower.y + PIPE_HALF_HEIGHT;
    assert_eq!(upper_bottom - lower_top, 2_000_000);
    assert_eq!(upper.y, PIPE_HALF_HEIGHT + 500_000 + 1_000_000);
    assert_eq!(lower.y, -PIPE_HALF_HEIGHT + 500_000 - 1_000_000);
}

#[test]
fn spawn_gap_exact_for_odd_size() {
    let mut obs: Vec<Obstacle> = Vec::new();
    spawn_pipe_couple(&mut obs, 1_234_567, -300_001);
    let upper_bottom = obs[0].y - PIPE_HALF_HEIGHT;
    let lower_top = obs[1].y + PIPE_HALF_HEIGHT;
    assert_eq!(upper_bottom - lower_top, 1_234_567);
}

#[test]
fn thousand_sampled_spawns_in_bounds() {
    for _ in 0..1000 {
        let (hole_size, hole_height) = sample_hole();
        assert!(MIN_HOLE_SIZE <= hole_size && hole_size < MAX_HOLE_SIZE);
        assert!(MIN_HOLE_HEIGHT <= hole_height && hole_height < MAX_HOLE_HEIGHT);
        let mut obs: Vec<Obstacle> = Vec::new();
        spawn_pipe_couple(&mut obs, hole_size, hole_height);
        let upper_bottom = obs[0].y - PIPE_HALF_HEIGHT;
        let lower_top = obs[1].y + PIPE_HALF_HEIGHT;
        assert_eq!(upper_bottom - lower_top, hole_size);
    }
}

#[test]
fn timer_accumulates_and_keeps_leftover() {
    let mut t = SpawnTimer { period: SPAWN_PERIOD, elapsed: 0 };
    assert!(!tick_timer(&mut t, 600));
    assert_eq!(t.elapsed, 600);
    assert!(tick_timer(&mut t, 600)); // 1200 crosses the 1000 ms period
    assert_eq!(t.elapsed, 200); // leftover kept, not reset to zero
    assert!(!tick_timer(&mut t, 799));
    assert!(tick_timer(&mut t, 1));
    assert_eq!(t.elapsed, 0);
}

#[test]
fn collision_requires_overlap_on_both_axes() {
    let b = hovering_bird();
    // full overlap: hit
    assert!(check_collisions(&b, &vec![obstacle_at(0, 0)]));
    // overlap on y only (near miss on x): no hit
    assert!(!check_collisions(&b, &vec![obstacle_at(2_000_000, 0)]));
    // overlap on x only (near miss on y): no hit
    assert!(!check_collisions(&b, &vec![obstacle_at(0, 4_000_000)]));
    // no obstacles, inside bounds: no hit
    assert!(!check_collisions(&b, &Vec::new()));
}

#[test]
fn collision_edge_touching_is_not_a_hit() {
    let b = hovering_bird();
    let touch_x = BIRD_HALF_WIDTH + PIPE_HALF_WIDTH;
    let touch_y = BIRD_HALF_HEIGHT + PIPE_HALF_HEIGHT;
    // edges exactly touching on x, overlapping on y: non-hit at equality
    assert!(!check_collisions(&b, &vec![obstacle_at(touch_x, 0)]));
    assert!(!check_collisions(&b, &vec![obstacle_at(-touch_x, 0)]));
    // edges exactly touching on y, overlapping on x: non-hit at equality
    assert!(!check_collisions(&b, &vec![obstacle_at(0, touch_y)]));
    assert!(!check_collisions(&b, &vec![obstacle_at(0, -touch_y)]));
    // one subpixel inside: hit
    assert!(check_collisions(&b, &vec![obstacle_at(touch_x - 1, 0)]));
    assert!(check_collisions(&b, &vec![obstacle_at(0, touch_y - 1)]));
}

#[test]
fn collision_field_bounds_are_strict() {
    let mut b = hovering_bird();
    b.y = FIELD_HALF_HEIGHT;
    assert!(!check_collisions(&b, &Vec::new())); // exactly on the bound: inside
    b.y = FIELD_HALF_HEIGHT + 1;
    assert!(check_collisions(&b, &Vec::new()));
    b.y = -FIELD_HALF_HEIGHT;
    assert!(!check_collisions(&b, &Vec::new()));
    b.y = -FIELD_HALF_HEIGHT - 1;
    assert!(check_collisions(&b, &Vec::new()));
}

#[test]
fn reaper_culls_only_past_threshold() {
    let keep_a = obstacle_at(CULL_X, 10);
    let gone = obstacle_at(CULL_X - 1, 20);
    let keep_b = obstacle_at(0, 30);
    let mut obs = vec![keep_a, gone, keep_b];
    remove_offscreen_pipes(&mut obs);
    assert_eq!(obs.len(), 2);
    assert_eq!(obs[0], keep_a); // order of survivors kept
    assert_eq!(obs[1], keep_b);
}
