//! The round lifecycle and the per-tick driver: a two-state machine
//! (Playing, Ended) owning the round-scoped entities — the controlled
//! entity, the obstacles, the spawn timer and the end-of-round affordance —
//! and the fixed-order system sequence run once per tick.
use vstd::prelude::*;

use crate::collision::check_collisions;
use crate::collision::hit;
use crate::consts::BIRD_START_X;
use crate::consts::CULL_X;
use crate::consts::FIELD_HALF_HEIGHT;
use crate::consts::FIELD_HALF_WIDTH;
use crate::consts::GRAVITY_ACCEL;
use crate::consts::JUMP_VELOCITY;
use crate::consts::MAX_TICK;
use crate::consts::PIPE_SPEED;
use crate::consts::SCALE;
use crate::consts::SPAWN_PERIOD;
use crate::consts::VY_BOUND;
use crate::motion::apply_gravity;
use crate::motion::apply_velocity;
use crate::motion::jump;
use crate::motion::moved;
use crate::motion::move_fits;
use crate::motion::obstacle_moved;
use crate::motion::obstacles_moved;
use crate::motion::Bird;
use crate::motion::Obstacle;
use crate::reaper::lemma_reaped_element;
use crate::reaper::reaped;
use crate::reaper::remove_offscreen_pipes;
use crate::spawn::elapsed_after;
use crate::spawn::fresh_timer;
use crate::spawn::sample_hole;
use crate::spawn::spawn_pipes;
use crate::spawn::spawned_obstacles;
use crate::spawn::timer_fires;
use crate::spawn::timer_inv;
use crate::spawn::valid_hole;
use crate::spawn::SpawnTimer;

verus! {

/// The round state: `Playing` runs the simulation systems; `Ended` only
/// waits for a restart. There is no pause and no win state.
#[derive(Clone, Copy, Debug, PartialEq, Eq, Structural)]
pub enum RoundState {
    Playing,
    Ended,
}

/// The whole simulation state for one run: the round state plus every
/// round-scoped entity. The controlled entity and the spawn timer exist
/// exactly while Playing; the end-of-round affordance exactly while Ended.
#[derive(Debug)]
pub struct GameWorld {
    pub state: RoundState,
    pub bird: Option<Bird>,
    pub obstacles: Vec<Obstacle>,
    pub timer: Option<SpawnTimer>,
    pub gameover_ui: bool,
}

/// The controlled entity at its fixed start: zero velocity, gravity not yet
/// active.
pub open spec fn start_bird() -> Bird {
    Bird { x: BIRD_START_X, y: 0, vx: 0, vy: 0, falling: false }
}

/// Well-formedness of the controlled entity while the round runs: it sits
/// at the fixed horizontal position with no horizontal velocity, inside the
/// vertical field bounds, its vertical velocity small enough that a faster
/// entity would have left the field on the tick that produced it, and zero
/// until gravity first becomes active.
pub open spec fn bird_inv(b: Bird) -> bool {
    &&& b.x == BIRD_START_X
    &&& b.vx == 0
    &&& -FIELD_HALF_HEIGHT <= b.y <= FIELD_HALF_HEIGHT
    &&& -VY_BOUND <= b.vy <= VY_BOUND
    &&& (!b.falling ==> b.vy == 0)
}

/// Well-formedness of an active obstacle: the fixed leftward velocity, not
/// yet past the culling threshold, not right of the field's right edge.
pub open spec fn obstacle_inv(o: Obstacle) -> bool {
    &&& o.vx == -PIPE_SPEED
    &&& CULL_X <= o.x <= FIELD_HALF_WIDTH
}

/// Two worlds holding exactly the same state.
pub open spec fn same_world(w0: GameWorld, w1: GameWorld) -> bool {
    &&& w1.state == w0.state
    &&& w1.bird == w0.bird
    &&& w1.timer == w0.timer
    &&& w1.obstacles@ == w0.obstacles@
    &&& w1.gameover_ui == w0.gameover_ui
}

/// A world freshly (re-)entered into Playing: one controlled entity at the
/// fixed start with zero velocity and gravity off, no obstacles, a fresh
/// spawn timer with nothing accumulated, no end-of-round affordance.
pub open spec fn fresh_playing(w: GameWorld) -> bool {
    &&& w.state == RoundState::Playing
    &&& w.bird == Some(start_bird())
    &&& w.timer == Some(fresh_timer())
    &&& w.obstacles@.len() == 0
    &&& !w.gameover_ui
}

/// A world that has just ended its round: every round-scoped entity torn
/// down, only the end-of-round affordance present.
pub open spec fn ended_world(w: GameWorld) -> bool {
    &&& w.state == RoundState::Ended
    &&& w.bird is None
    &&& w.timer is None
    &&& w.obstacles@.len() == 0
    &&& w.gameover_ui
}

/// The controlled entity after the Playing-only systems of one tick ran in
/// order: the activation impulse, then gravity, then motion.
pub open spec fn stepped_bird(b0: Bird, activate: bool, dt: int) -> Bird {
    let falling1 = b0.falling || activate;
    let vy1 = if activate {
        JUMP_VELOCITY as int
    } else {
        b0.vy as int
    };
    let vy2 = if falling1 {
        vy1 - GRAVITY_ACCEL * dt
    } else {
        vy1
    };
    Bird {
        x: moved(b0.x as int, b0.vx as int, dt) as i64,
        y: (b0.y + vy2 * dt * SCALE) as i64,
        vx: b0.vx,
        vy: vy2 as i64,
        falling: falling1,
    }
}

impl GameWorld {
    /// How many round-scoped entities exist: the controlled entity, the
    /// obstacles, the spawn timer, and the end-of-round affordance.
    pub open spec fn entity_count(self) -> int {
        (if self.bird is Some {
            1int
        } else {
            0int
        }) + self.obstacles@.len() + (if self.timer is Some {
            1int
        } else {
            0int
        }) + (if self.gameover_ui {
            1int
        } else {
            0int
        })
    }

    /// The world invariant: while Playing, exactly the round entities exist
    /// and each is well formed; while Ended, none is left but the
    /// end-of-round affordance.
    pub open spec fn inv(self) -> bool {
        match self.state {
            RoundState::Playing => {
                &&& self.bird matches Some(b) && bird_inv(b)
                &&& self.timer matches Some(t) && timer_inv(t)
                &&& !self.gameover_ui
                &&& forall|i: int|
                    0 <= i < self.obstacles@.len() ==> obstacle_inv(#[trigger] self.obstacles@[i])
            },
            RoundState::Ended => ended_world(self),
        }
    }

    /// A new run starts directly in Playing, with the fresh round entities.
    pub fn new() -> (w: GameWorld)
        ensures
            w.inv(),
            fresh_playing(w),
            w.entity_count() == 2,
    {
        let mut w = GameWorld {
            state: RoundState::Playing,
            bird: None,
            obstacles: Vec::new(),
            timer: None,
            gameover_ui: false,
        };
        w.game_setup();
        w
    }

    /// The single teardown routine run on every state transition, in either
    /// direction: destroys every round-scoped entity, leaving none.
    pub fn scene_change_clean(&mut self)
        ensures
            final(self).state == old(self).state,
            final(self).bird is None,
            final(self).timer is None,
            final(self).obstacles@.len() == 0,
            !final(self).gameover_ui,
            final(self).entity_count() == 0,
    {
        self.bird = None;
        self.timer = None;
        self.obstacles = Vec::new();
        self.gameover_ui = false;
    }

    /// Entity creation on (re-)entry to Playing: the controlled entity at
    /// its fixed start position with zero velocity and gravity off, and a
    /// fresh spawn timer.
    pub fn game_setup(&mut self)
        ensures
            final(self).state == old(self).state,
            final(self).bird == Some(start_bird()),
            final(self).timer == Some(fresh_timer()),
            final(self).obstacles@ == old(self).obstacles@,
            final(self).gameover_ui == old(self).gameover_ui,
    {
        self.bird = Some(Bird { x: BIRD_START_X, y: 0, vx: 0, vy: 0, falling: false });
        self.timer = Some(SpawnTimer { period: SPAWN_PERIOD, elapsed: 0 });
    }

    /// Presents the end-of-round affordance on entry to Ended.
    pub fn create_gameover_ui(&mut self)
        ensures
            final(self).state == old(self).state,
            final(self).bird == old(self).bird,
            final(self).timer == old(self).timer,
            final(self).obstacles@ == old(self).obstacles@,
            final(self).gameover_ui,
    {
        self.gameover_ui = true;
    }

    /// The transition Playing -> Ended, requested by a hit: tears every
    /// round-scoped entity down, then presents the end-of-round affordance.
    /// Requesting it while already Ended is a no-op.
    pub fn end_round(&mut self)
        ensures
            old(self).state == RoundState::Playing ==> ended_world(*final(self))
                && final(self).entity_count() == 1,
            old(self).state == RoundState::Ended ==> same_world(*old(self), *final(self)),
            old(self).inv() ==> final(self).inv(),
    {
        match self.state {
            RoundState::Playing => {
                self.scene_change_clean();
                self.state = RoundState::Ended;
                self.create_gameover_ui();
            },
            RoundState::Ended => {},
        }
    }

    /// The transition Ended -> Playing on a restart input: tears the
    /// end-of-round affordance down, then recreates the fresh round
    /// entities. A restart request while Playing is ignored.
    pub fn restart_game(&mut self)
        ensures
            old(self).state == RoundState::Ended ==> fresh_playing(*final(self))
                && final(self).entity_count() == 2,
            old(self).state == RoundState::Playing ==> same_world(*old(self), *final(self)),
            old(self).inv() ==> final(self).inv(),
    {
        match self.state {
            RoundState::Ended => {
                self.scene_change_clean();
                self.state = RoundState::Playing;
                self.game_setup();
            },
            RoundState::Playing => {},
        }
    }

    /// Everything one Playing tick leaves behind, given the tick length,
    /// the activation input, and the gap parameters used if the spawn timer
    /// fires. The systems run in fixed order: input, gravity, motion,
    /// spawner, collision detection, reaper. A hit — against an obstacle at
    /// its post-move position, or the field bounds — ends the round within
    /// the same tick; otherwise every entity carries its stepped state.
    pub open spec fn playing_post(
        w0: GameWorld,
        w1: GameWorld,
        dt: int,
        activate: bool,
        hole_size: i64,
        hole_height: i64,
    ) -> bool {
        let b2 = stepped_bird(w0.bird.unwrap(), activate, dt);
        let fired = timer_fires(w0.timer.unwrap(), dt);
        let obs1 = spawned_obstacles(
            obstacles_moved(w0.obstacles@, dt),
            fired,
            hole_size,
            hole_height,
        );
        if hit(b2, obs1) {
            ended_world(w1)
        } else {
            &&& w1.state == RoundState::Playing
            &&& w1.bird == Some(b2)
            &&& w1.timer == Some(
                SpawnTimer {
                    period: w0.timer.unwrap().period,
                    elapsed: elapsed_after(w0.timer.unwrap(), dt) as i64,
                },
            )
            &&& w1.obstacles@ == reaped(obs1)
            &&& !w1.gameover_ui
        }
    }

    /// One tick while Playing, with the spawn gap parameters supplied by
    /// the caller; the systems run in the fixed order of `playing_post`,
    /// which pins down the whole resulting world.
    pub fn tick_playing(&mut self, dt: i64, activate: bool, hole_size: i64, hole_height: i64)
        requires
            old(self).inv(),
            old(self).state == RoundState::Playing,
            0 <= dt <= MAX_TICK,
            valid_hole(hole_size, hole_height),
        ensures
            final(self).inv(),
            GameWorld::playing_post(*old(self), *final(self), dt as int, activate, hole_size, hole_height),
    {
        let mut b = self.bird.unwrap();
        let mut t = self.timer.unwrap();

        // Input Mapper
        if activate {
            jump(&mut b);
        }

        // Gravity Applier
        apply_gravity(&mut b, dt);

        // Motion Integrator
        proof {
            assert(-1_000_000_000 <= b.vy <= 1_000_000_000);
            assert(-100_000_000_000_000_000 <= b.vy * dt <= 100_000_000_000_000_000)
                by (nonlinear_arith)
                requires
                    -1_000_000_000 <= b.vy <= 1_000_000_000,
                    0 <= dt <= 100_000_000,
            ;
            assert(b.vx * dt == 0) by (nonlinear_arith)
                requires
                    b.vx == 0,
            ;
            assert(move_fits(b.x as int, b.vx as int, dt as int));
            assert(move_fits(b.y as int, b.vy as int, dt as int));
            assert forall|i: int| 0 <= i < self.obstacles@.len() implies move_fits(
                self.obstacles@[i].x as int,
                self.obstacles@[i].vx as int,
                dt as int,
            ) by {
                assert(obstacle_inv(self.obstacles@[i]));
                let ovx = self.obstacles@[i].vx as int;
                assert(-1_000_000_000_000 <= ovx * dt <= 0) by (nonlinear_arith)
                    requires
                        ovx == -2_000,
                        0 <= dt <= 100_000_000,
                ;
            }
        }
        apply_velocity(&mut b, &mut self.obstacles, dt);

        // Obstacle Spawner
        let fired = spawn_pipes(&mut t, &mut self.obstacles, dt, hole_size, hole_height);

        proof {
            assert(b == stepped_bird(old(self).bird.unwrap(), activate, dt as int));
        }

        // Collision Detector
        let hit_now = check_collisions(&b, &self.obstacles);
        if hit_now {
            self.end_round();
        } else {
            // Obstacle Reaper
            remove_offscreen_pipes(&mut self.obstacles);
            self.bird = Some(b);
            self.timer = Some(t);
            proof {
                let moved_obs = obstacles_moved(old(self).obstacles@, dt as int);
                let obs1 = spawned_obstacles(
                    moved_obs,
                    timer_fires(old(self).timer.unwrap(), dt as int),
                    hole_size,
                    hole_height,
                );
                assert forall|i: int| 0 <= i < self.obstacles@.len() implies obstacle_inv(
                    #[trigger] self.obstacles@[i],
                ) by {
                    lemma_reaped_element(obs1, i);
                    let e = self.obstacles@[i];
                    let j = choose|j: int| 0 <= j < obs1.len() && obs1[j] == e;
                    if j < moved_obs.len() {
                        assert(obstacle_inv(old(self).obstacles@[j]));
                        assert(e == obstacle_moved(old(self).obstacles@[j], dt as int));
                        let ovx = old(self).obstacles@[j].vx as int;
                        assert(ovx * dt <= 0) by (nonlinear_arith)
                            requires
                                ovx == -2_000,
                                0 <= dt,
                        ;
                    }
                }
                assert(bird_inv(b)) by {
                    let y0 = old(self).bird.unwrap().y as int;
                    if dt >= 1 {
                        assert(-2_400_000 <= b.vy <= 2_400_000) by (nonlinear_arith)
                            requires
                                dt >= 1,
                                -3_600_000 <= y0 <= 3_600_000,
                                -3_600_000 <= y0 + b.vy * dt * 3 <= 3_600_000,
                        ;
                    }
                }
            }
        }
    }

    /// One full tick: while Playing it draws the spawn gap parameters and
    /// runs the Playing systems; while Ended it only honors a restart
    /// input. An activation input while Ended, or a restart input while
    /// Playing, is ignored.
    pub fn tick(&mut self, dt: i64, activate: bool, restart: bool)
        requires
            old(self).inv(),
            0 <= dt <= MAX_TICK,
        ensures
            final(self).inv(),
            old(self).state == RoundState::Playing ==> exists|hs: i64, hh: i64|
                valid_hole(hs, hh) && #[trigger] GameWorld::playing_post(
                    *old(self),
                    *final(self),
                    dt as int,
                    activate,
                    hs,
                    hh,
                ),
            old(self).state == RoundState::Ended && restart ==> fresh_playing(*final(self)),
            old(self).state == RoundState::Ended && !restart ==> same_world(
                *old(self),
                *final(self),
            ),
    {
        match self.state {
            RoundState::Playing => {
                let (hole_size, hole_height) = sample_hole();
                self.tick_playing(dt, activate, hole_size, hole_height);
                proof {
                    assert(valid_hole(hole_size, hole_height) && GameWorld::playing_post(
                        *old(self),
                        *self,
                        dt as int,
                        activate,
                        hole_size,
                        hole_height,
                    ));
                }
            },
            RoundState::Ended => {
                if restart {
                    self.restart_game();
                }
            },
        }
    }
}

} // verus!
