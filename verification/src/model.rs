//! The simulation: the full agent set, the obstacle list, the spawner,
//! and the generation lifecycle.
//!
//! One tick is driven in three phases, so that the host can ask the
//! externally owned controllers for their decisions mid-tick:
//! [`Model::update`] integrates every living agent against the old
//! obstacle list (and fully ticks the player, whose jumps arrive as
//! events); then the host senses with [`Bird::read`] and hands each
//! population member's output to [`Model::apply_output`]; finally
//! [`Model::finish_update`] runs the bounds and collision checks and the
//! spawner. When every counted agent is dead, [`Model::update`] instead
//! concludes the generation and returns the fitness scores, exactly once,
//! for the host to feed the evolutionary engine; [`Model::rebind`] then
//! rebuilds the agent set for the new membership.

use vstd::prelude::*;
use crate::units::{Vec2, tdiv64, in_val_vec, HALF, BOUND_Y, VAL_MAX, POST_POS_MAX, DT_MAX};
use crate::rules::Rules;
use crate::bird::{Bird, Controller, integrated, ticked, checked, alive_after_tick, hits_at};
use crate::obstacle::Obstacle;
use crate::rng::random_in_range;

verus! {

/// Horizontal start speed of every freshly created or revived agent:
/// 5 world units per second.
pub const START_SPEED_X: i64 = 5_000;

/// Where the first obstacle of a fresh simulation will stand: 20 world
/// units in.
pub const FIRST_OBSTACLE_X: i64 = 20_000;

/// An input event from the host: the operator's jump command, or the
/// manual generation reset.
#[derive(Clone, Copy, Debug, PartialEq, Eq, Structural)]
pub enum Event {
    Jump,
    Reset,
}

/// One population member's fitness, reported at a generation's end.
#[derive(Clone, Copy, Debug, PartialEq, Eq, Structural)]
pub struct Score {
    /// The member's stable identifier within the ended generation.
    pub id: u64,
    /// The furthest horizontal position the member's agent reached.
    pub fitness: i64,
}

/// The identifier a population-controlled agent is bound to. Of the
/// player's controller nothing is read, and zero is returned.
pub open spec fn controller_id(c: Controller) -> u64 {
    match c {
        Controller::Player => 0,
        Controller::Client(id) => id,
    }
}

/// The agent an identifier is bound to at the start of a generation.
pub open spec fn initial_bird(radius: int, controller: Controller) -> Bird {
    Bird {
        alive: true,
        pos: Vec2 { x: 0, y: 0 },
        radius: radius as i64,
        speed: Vec2 { x: START_SPEED_X, y: 0 },
        best_x: 0,
        controller,
    }
}

/// The running maximum of a base score and every reported fitness.
pub open spec fn max_score_after(base: int, scores: Seq<Score>) -> int
    decreases scores.len(),
{
    if scores.len() == 0 {
        base
    } else {
        vstd::math::max(max_score_after(base, scores.drop_last()), scores.last().fitness as int)
    }
}

/// Fold, in order, the integrated horizontal position of every living
/// agent of the sequence into a running maximum.
pub open spec fn flock_max_x(birds: Seq<Bird>, gravity: Vec2, dt: int, acc: int) -> int
    decreases birds.len(),
{
    if birds.len() == 0 {
        acc
    } else {
        let stepped = if birds[0].alive {
            vstd::math::max(acc, birds[0].px_after(gravity, dt))
        } else {
            acc
        };
        flock_max_x(birds.drop_first(), gravity, dt, stepped)
    }
}

/// The furthest integrated horizontal position any living agent — the
/// player first, then the population — will reach this tick; at least
/// zero. This is the mark the spawner compares against its threshold.
pub open spec fn tick_max_spec(m: Model, dt: int) -> int {
    let base = if m.player.alive {
        vstd::math::max(0, m.player.px_after(m.rules.gravity, dt))
    } else {
        0int
    };
    flock_max_x(m.clients@, m.rules.gravity, dt, base)
}

/// The index of the one agent bound to `id`; meaningful only while some
/// agent is bound to it.
pub open spec fn client_index(m: Model, id: u64) -> int {
    choose|i: int|
        0 <= i < m.clients.len() && controller_id((#[trigger] m.clients[i]).controller) == id
}

/// The start-of-generation speed every agent is revived with.
pub open spec fn start_speed() -> Vec2 {
    Vec2 { x: START_SPEED_X, y: 0 }
}

/// How a generation reset relates the state before it to the state after
/// it: one score per population member, carrying the furthest horizontal
/// position its agent reached; the best score folded into `max_score`;
/// the course cleared, the next spawn point back at one spacing; every
/// agent revived. Nothing else moves.
pub open spec fn reset_done(pre: Model, post: Model, scores: Seq<Score>) -> bool {
    &&& scores.len() == pre.clients.len()
    &&& forall|i: int| 0 <= i < scores.len()
        ==> (#[trigger] scores[i]).id == controller_id(pre.clients[i].controller)
    &&& forall|i: int| 0 <= i < scores.len()
        ==> (#[trigger] scores[i]).fitness == pre.clients[i].best_x
    &&& post.max_score == max_score_after(pre.max_score as int, scores)
    &&& post.obstacles.len() == 0
    &&& post.next_obstacle == pre.rules.obstacle_dist
    &&& post.player == pre.player.revived(start_speed())
    &&& post.clients.len() == pre.clients.len()
    &&& forall|i: int| 0 <= i < pre.clients.len()
        ==> #[trigger] post.clients[i] == pre.clients[i].revived(start_speed())
    &&& post.rules == pre.rules
    &&& post.generation == pre.generation
    &&& post.mid_tick == pre.mid_tick
    &&& post.tick_max_x == pre.tick_max_x
}

/// A full generation transition: a reset, and the generation counter
/// moved up by exactly one.
pub open spec fn concluded(pre: Model, post: Model, scores: Seq<Score>) -> bool {
    &&& reset_done(pre, Model { generation: pre.generation, ..post }, scores)
    &&& post.generation == pre.generation + 1
}

/// The spawner's invariant, in every generation: obstacles stand in
/// strictly increasing horizontal position, each exactly one spacing
/// after the one before it.
pub proof fn lemma_obstacles_spaced(m: Model, i: int, j: int)
    requires
        m.wf(),
        0 <= i < j < m.obstacles@.len(),
    ensures
        m.obstacles@[j].pos.x == m.obstacles@[i].pos.x + (j - i) * m.rules.obstacle_dist,
        m.obstacles@[i].pos.x < m.obstacles@[j].pos.x,
    decreases j - i,
{
    let d = m.rules.obstacle_dist as int;
    if j == i + 1 {
        assert(m.obstacles@[j].pos.x == m.obstacles@[j - 1].pos.x + d);
        assert((j - i) * d == d) by (nonlinear_arith)
            requires
                j == i + 1,
        ;
    } else {
        lemma_obstacles_spaced(m, i, j - 1);
        assert(m.obstacles@[j].pos.x == m.obstacles@[j - 1].pos.x + d);
        assert((j - i) * d == (j - 1 - i) * d + d) by (nonlinear_arith);
    }
    assert(0 < (j - i) * d) by (nonlinear_arith)
        requires
            0 < j - i && 0 < d,
    ;
}

/// The simulation state.
pub struct Model {
    /// How many generations have ended so far.
    pub generation: usize,
    /// Best fitness ever reported; never decreases.
    pub max_score: i64,
    /// The immutable configuration of this run.
    pub rules: Rules,
    /// The operator-driven agent.
    pub player: Bird,
    /// One agent per population member, each bound to a distinct
    /// identifier.
    pub clients: Vec<Bird>,
    /// The obstacle course of the running generation, in spawn order.
    pub obstacles: Vec<Obstacle>,
    /// Where the next obstacle will spawn.
    pub next_obstacle: i64,
    /// Whether a tick is underway: [`Model::update`] has integrated and
    /// [`Model::finish_update`] has not yet checked.
    pub mid_tick: bool,
    /// The furthest horizontal position any living agent reached during
    /// the integration phase of the current or last tick.
    pub tick_max_x: i64,
}

impl Model {
    /// The obstacle course is well formed: every obstacle carries the
    /// configured size, sits within the vertical band, and stands exactly
    /// one spacing after its predecessor, the next spawn point one
    /// spacing after the last.
    pub open spec fn obstacles_wf(self) -> bool {
        &&& forall|i: int| 0 <= i < self.obstacles.len() ==> (#[trigger] self.obstacles[i]).wf()
        &&& forall|i: int| 0 <= i < self.obstacles.len()
            ==> (#[trigger] self.obstacles[i]).size == self.rules.obstacle_size
        &&& forall|i: int| 0 <= i < self.obstacles.len()
            ==> 0 < (#[trigger] self.obstacles[i]).pos.x
        &&& forall|i: int| 0 <= i < self.obstacles.len()
            ==> -(BOUND_Y - self.rules.obstacle_size.y / 2)
                <= (#[trigger] self.obstacles[i]).pos.y
                <= BOUND_Y - self.rules.obstacle_size.y / 2
        &&& forall|i: int| 0 < i < self.obstacles.len()
            ==> (#[trigger] self.obstacles[i]).pos.x
                == self.obstacles[i - 1].pos.x + self.rules.obstacle_dist
        &&& self.obstacles.len() > 0
            ==> self.obstacles[self.obstacles.len() - 1].pos.x + self.rules.obstacle_dist
                == self.next_obstacle
    }

    /// The whole simulation state is well formed.
    pub open spec fn wf(self) -> bool {
        &&& self.rules.wf()
        &&& self.player.wf()
        &&& self.player.controller == Controller::Player
        &&& self.player.radius == self.rules.bird_radius
        &&& forall|i: int| 0 <= i < self.clients.len() ==> (#[trigger] self.clients[i]).wf()
        &&& forall|i: int| 0 <= i < self.clients.len()
            ==> (#[trigger] self.clients[i]).radius == self.rules.bird_radius
        &&& forall|i: int| 0 <= i < self.clients.len()
            ==> (#[trigger] self.clients[i]).controller is Client
        &&& forall|i: int, j: int|
            0 <= i < j < self.clients.len()
                ==> controller_id((#[trigger] self.clients[i]).controller)
                    != controller_id((#[trigger] self.clients[j]).controller)
        &&& self.obstacles_wf()
        &&& 0 < self.next_obstacle <= VAL_MAX
        &&& 0 <= self.tick_max_x <= POST_POS_MAX
        &&& 0 <= self.max_score <= VAL_MAX
    }

    /// Some population-controlled agent is still alive.
    pub open spec fn any_client_alive(self) -> bool {
        exists|i: int| 0 <= i < self.clients.len() && (#[trigger] self.clients[i]).alive
    }

    /// Every living agent is small enough for one more tick.
    pub open spec fn step_ok(self) -> bool {
        &&& (self.player.alive ==> self.player.in_step())
        &&& forall|i: int| 0 <= i < self.clients.len()
            ==> ((#[trigger] self.clients[i]).alive ==> self.clients[i].in_step())
    }

    /// A fresh simulation: one player agent plus one agent per population
    /// member, no obstacles yet, generation zero.
    pub fn new(rules: Rules, ids: Vec<u64>) -> (m: Model)
        requires
            rules.wf(),
            forall|i: int, j: int| 0 <= i < j < ids@.len() ==> ids@[i] != ids@[j],
        ensures
            m.wf(),
            m.generation == 0,
            m.max_score == 0,
            m.rules == rules,
            m.player == initial_bird(rules.bird_radius as int, Controller::Player),
            m.clients@.len() == ids@.len(),
            forall|i: int| 0 <= i < ids@.len()
                ==> m.clients@[i]
                    == initial_bird(rules.bird_radius as int, Controller::Client(ids@[i])),
            m.obstacles@.len() == 0,
            m.next_obstacle == FIRST_OBSTACLE_X,
            !m.mid_tick,
            m.tick_max_x == 0,
            m.step_ok(),
    {
        let mut clients: Vec<Bird> = Vec::new();
        let mut i: usize = 0;
        while i < ids.len()
            invariant
                0 <= i <= ids@.len(),
                rules.wf(),
                clients@.len() == i,
                forall|k: int| 0 <= k < i
                    ==> clients@[k]
                        == initial_bird(rules.bird_radius as int, Controller::Client(ids@[k])),
            decreases ids@.len() - i,
        {
            clients.push(Bird {
                alive: true,
                pos: Vec2 { x: 0, y: 0 },
                radius: rules.bird_radius,
                speed: Vec2 { x: START_SPEED_X, y: 0 },
                best_x: 0,
                controller: Controller::Client(ids[i]),
            });
            i = i + 1;
        }
        let player = Bird {
            alive: true,
            pos: Vec2 { x: 0, y: 0 },
            radius: rules.bird_radius,
            speed: Vec2 { x: START_SPEED_X, y: 0 },
            best_x: 0,
            controller: Controller::Player,
        };
        Model {
            generation: 0,
            max_score: 0,
            rules,
            player,
            clients,
            obstacles: Vec::new(),
            next_obstacle: FIRST_OBSTACLE_X,
            mid_tick: false,
            tick_max_x: 0,
        }
    }

    /// Steps one to four of a generation's end: report one score per
    /// population member — its agent's furthest-reached horizontal
    /// position, exactly once —, fold the best into `max_score`, clear
    /// the course, revive every agent.
    fn reset(&mut self) -> (scores: Vec<Score>)
        requires
            old(self).wf(),
        ensures
            final(self).wf(),
            final(self).step_ok(),
            reset_done(*old(self), *final(self), scores@),
    {
        self.player.alive = true;
        self.player.pos = Vec2 { x: 0, y: 0 };
        self.player.speed = Vec2 { x: START_SPEED_X, y: 0 };
        self.player.best_x = 0;
        let mut scores: Vec<Score> = Vec::new();
        let n = self.clients.len();
        let mut i: usize = 0;
        while i < n
            invariant
                0 <= i <= n,
                n == old(self).clients@.len(),
                self.clients@.len() == n,
                old(self).wf(),
                scores@.len() == i,
                forall|k: int| 0 <= k < i
                    ==> (#[trigger] scores@[k]).id
                        == controller_id(old(self).clients@[k].controller),
                forall|k: int| 0 <= k < i
                    ==> (#[trigger] scores@[k]).fitness == old(self).clients@[k].best_x,
                forall|k: int| 0 <= k < i
                    ==> #[trigger] self.clients@[k]
                        == old(self).clients@[k].revived(start_speed()),
                forall|k: int| i <= k < n
                    ==> #[trigger] self.clients@[k] == old(self).clients@[k],
                self.max_score == max_score_after(old(self).max_score as int, scores@),
                0 <= self.max_score <= VAL_MAX,
                self.player == old(self).player.revived(start_speed()),
                self.rules == old(self).rules,
                self.obstacles == old(self).obstacles,
                self.next_obstacle == old(self).next_obstacle,
                self.generation == old(self).generation,
                self.mid_tick == old(self).mid_tick,
                self.tick_max_x == old(self).tick_max_x,
            decreases n - i,
        {
            let b = self.clients[i];
            let id: u64 = match b.controller {
                Controller::Client(id) => id,
                Controller::Player => 0,
            };
            let ghost prev_scores = scores@;
            scores.push(Score { id, fitness: b.best_x });
            proof {
                assert(scores@.drop_last() =~= prev_scores);
                assert(scores@.last() == Score { id, fitness: b.best_x });
            }
            if b.best_x > self.max_score {
                self.max_score = b.best_x;
            }
            self.clients.set(
                i,
                Bird {
                    alive: true,
                    pos: Vec2 { x: 0, y: 0 },
                    radius: b.radius,
                    speed: Vec2 { x: START_SPEED_X, y: 0 },
                    best_x: 0,
                    controller: b.controller,
                },
            );
            i = i + 1;
        }
        self.obstacles = Vec::new();
        self.next_obstacle = self.rules.obstacle_dist;
        scores
    }

    /// A full generation transition, steps one to four and six: reset,
    /// then count the new generation. The host feeds the returned scores
    /// to the evolutionary engine and, when the engine changed the
    /// population's membership, rebuilds the agent set with
    /// [`Model::rebind`] (step five).
    pub fn next_generation(&mut self) -> (scores: Vec<Score>)
        requires
            old(self).wf(),
            old(self).generation < usize::MAX,
        ensures
            final(self).wf(),
            final(self).step_ok(),
            concluded(*old(self), *final(self), scores@),
    {
        let scores = self.reset();
        self.generation = self.generation + 1;
        scores
    }

    /// Step five of a generation's end: rebuild the agent set for the
    /// population membership the evolutionary engine produced, one fresh
    /// agent per identifier.
    pub fn rebind(&mut self, ids: &Vec<u64>)
        requires
            old(self).wf(),
            forall|i: int, j: int| 0 <= i < j < ids@.len() ==> ids@[i] != ids@[j],
        ensures
            final(self).wf(),
            final(self).clients@.len() == ids@.len(),
            forall|i: int| 0 <= i < ids@.len()
                ==> final(self).clients@[i]
                    == initial_bird(old(self).rules.bird_radius as int, Controller::Client(ids@[i])),
            (*final(self) == Model { clients: final(self).clients, ..*old(self) }),
    {
        let mut clients: Vec<Bird> = Vec::new();
        let mut i: usize = 0;
        while i < ids.len()
            invariant
                0 <= i <= ids@.len(),
                old(self).wf(),
                clients@.len() == i,
                forall|k: int| 0 <= k < i
                    ==> clients@[k]
                        == initial_bird(
                            old(self).rules.bird_radius as int,
                            Controller::Client(ids@[k]),
                        ),
                self == old(self),
            decreases ids@.len() - i,
        {
            clients.push(Bird {
                alive: true,
                pos: Vec2 { x: 0, y: 0 },
                radius: self.rules.bird_radius,
                speed: Vec2 { x: START_SPEED_X, y: 0 },
                best_x: 0,
                controller: Controller::Client(ids[i]),
            });
            i = i + 1;
        }
        self.clients = clients;
    }

    /// Whether some population-controlled agent is still alive.
    pub fn any_client_alive_check(&self) -> (r: bool)
        ensures
            r == self.any_client_alive(),
    {
        let mut i: usize = 0;
        while i < self.clients.len()
            invariant
                0 <= i <= self.clients@.len(),
                forall|k: int| 0 <= k < i ==> !(#[trigger] self.clients@[k]).alive,
            decreases self.clients@.len() - i,
        {
            if self.clients[i].alive {
                assert(self.any_client_alive());
                return true;
            }
            i = i + 1;
        }
        false
    }

    /// The integration phase of one tick — or, when every counted agent
    /// is already beyond saving, the generation transition instead.
    ///
    /// The player is ticked fully (its jumps arrive as events). When the
    /// run goes on, every living population agent is integrated against
    /// the old obstacle list, the furthest mark is recorded for the
    /// spawner, and `None` comes back: the host now senses, asks each
    /// controller, hands outputs to [`Model::apply_output`] and closes
    /// the tick with [`Model::finish_update`]. When the player (if it
    /// counts) and every population agent are dead, the generation is
    /// concluded as by [`Model::next_generation`] and its scores come
    /// back.
    pub fn update(&mut self, dt: i64) -> (r: Option<Vec<Score>>)
        requires
            old(self).wf(),
            !old(self).mid_tick,
            old(self).step_ok(),
            0 <= dt <= DT_MAX,
            old(self).generation < usize::MAX,
        ensures
            final(self).wf(),
            ({
                let keep_running = (old(self).rules.player_counts && alive_after_tick(
                    old(self).player,
                    old(self).rules.gravity,
                    dt as int,
                    old(self).obstacles@,
                )) || old(self).any_client_alive();
                if keep_running {
                    &&& r is None
                    &&& final(self).mid_tick
                    &&& ticked(
                        old(self).player,
                        final(self).player,
                        old(self).rules.gravity,
                        dt as int,
                        old(self).obstacles@,
                    )
                    &&& final(self).clients@.len() == old(self).clients@.len()
                    &&& forall|i: int|
                        0 <= i < old(self).clients@.len() ==> integrated(
                            old(self).clients@[i],
                            #[trigger] final(self).clients@[i],
                            old(self).rules.gravity,
                            dt as int,
                        )
                    &&& final(self).obstacles == old(self).obstacles
                    &&& final(self).next_obstacle == old(self).next_obstacle
                    &&& final(self).generation == old(self).generation
                    &&& final(self).max_score == old(self).max_score
                    &&& final(self).rules == old(self).rules
                    &&& final(self).tick_max_x == tick_max_spec(*old(self), dt as int)
                } else {
                    r matches Some(s) && concluded(*old(self), *final(self), s@)
                }
            }),
    {
        let g = self.rules.gravity;
        let mut max_x: i64 = 0;
        if self.player.alive {
            self.player.integrate(g, dt);
            if self.player.pos.x > max_x {
                max_x = self.player.pos.x;
            }
            self.player.check_bounds();
            let ghost p0 = self.player;
            let mut p = self.player;
            let mut j: usize = 0;
            while j < self.obstacles.len()
                invariant
                    0 <= j <= self.obstacles@.len(),
                    forall|k: int| 0 <= k < self.obstacles@.len()
                        ==> (#[trigger] self.obstacles@[k]).wf(),
                    in_val_vec(p0.pos),
                    0 < p0.radius <= crate::units::RADIUS_MAX,
                    p.pos == p0.pos,
                    p.speed == p0.speed,
                    p.best_x == p0.best_x,
                    p.radius == p0.radius,
                    p.controller == p0.controller,
                    p.alive == (p0.alive && forall|k: int|
                        0 <= k < j ==> !hits_at(
                            p0.pos.x as int,
                            p0.pos.y as int,
                            p0.radius as int,
                            #[trigger] self.obstacles@[k],
                        )),
                decreases self.obstacles@.len() - j,
            {
                let o = self.obstacles[j];
                p.collide(&o);
                j = j + 1;
            }
            self.player = p;
        }
        let keep = (self.rules.player_counts && self.player.alive) || self.any_client_alive_check();
        if keep {
            let ghost played = self.player;
            let n = self.clients.len();
            let mut i: usize = 0;
            proof {
                assert(old(self).clients@.subrange(0, n as int) =~= old(self).clients@);
                if old(self).player.alive {
                    assert(max_x as int == vstd::math::max(
                        0,
                        old(self).player.px_after(g, dt as int),
                    ));
                } else {
                    assert(max_x == 0);
                }
            }
            while i < n
                invariant
                    0 <= i <= n,
                    n == self.clients@.len(),
                    self.clients@.len() == old(self).clients@.len(),
                    old(self).wf(),
                    old(self).step_ok(),
                    crate::units::in_gravity(g),
                    0 <= dt <= DT_MAX,
                    g == old(self).rules.gravity,
                    forall|k: int|
                        0 <= k < i ==> integrated(
                            old(self).clients@[k],
                            #[trigger] self.clients@[k],
                            g,
                            dt as int,
                        ),
                    forall|k: int| 0 <= k < i ==> (#[trigger] self.clients@[k]).wf(),
                    forall|k: int|
                        i <= k < n ==> #[trigger] self.clients@[k] == old(self).clients@[k],
                    0 <= max_x <= POST_POS_MAX,
                    flock_max_x(
                        old(self).clients@.subrange(i as int, n as int),
                        g,
                        dt as int,
                        max_x as int,
                    ) == tick_max_spec(*old(self), dt as int),
                    self.player == played,
                    self.rules == old(self).rules,
                    self.obstacles == old(self).obstacles,
                    self.next_obstacle == old(self).next_obstacle,
                    self.generation == old(self).generation,
                    self.max_score == old(self).max_score,
                    self.mid_tick == old(self).mid_tick,
                    self.tick_max_x == old(self).tick_max_x,
                decreases n - i,
            {
                let ghost suffix = old(self).clients@.subrange(i as int, n as int);
                proof {
                    assert(suffix[0] == old(self).clients@[i as int]);
                    assert(suffix.drop_first() =~= old(self).clients@.subrange(
                        i as int + 1,
                        n as int,
                    ));
                }
                let mut b = self.clients[i];
                if b.alive {
                    b.integrate(g, dt);
                    if b.pos.x > max_x {
                        max_x = b.pos.x;
                    }
                }
                self.clients.set(i, b);
                i = i + 1;
            }
            proof {
                assert(old(self).clients@.subrange(n as int, n as int) =~= Seq::<Bird>::empty());
            }
            self.tick_max_x = max_x;
            self.mid_tick = true;
            None
        } else {
            let ghost mid = *self;
            let scores = self.next_generation();
            proof {
                assert(mid.player.revived(start_speed()) == old(self).player.revived(
                    start_speed(),
                ));
            }
            Some(scores)
        }
    }

    /// Hand one population member's controller output to its agent: on
    /// an output of at least half a unit a living agent jumps; a dead
    /// agent, or a lower output, changes nothing. Some agent must still
    /// be bound to `id`: a stale identifier is a lifecycle-ordering bug.
    pub fn apply_output(&mut self, id: u64, output: i64)
        requires
            old(self).wf(),
            old(self).mid_tick,
            exists|i: int|
                0 <= i < old(self).clients@.len() && controller_id(
                    (#[trigger] old(self).clients@[i]).controller,
                ) == id,
        ensures
            final(self).wf(),
            ({
                let i = client_index(*old(self), id);
                &&& final(self).clients@.len() == old(self).clients@.len()
                &&& forall|k: int|
                    0 <= k < old(self).clients@.len() && k != i
                        ==> #[trigger] final(self).clients@[k] == old(self).clients@[k]
                &&& final(self).clients@[i] == (if old(self).clients@[i].alive && output >= HALF {
                    Bird {
                        speed: Vec2 {
                            x: old(self).clients@[i].speed.x,
                            y: old(self).rules.jump_speed,
                        },
                        ..old(self).clients@[i]
                    }
                } else {
                    old(self).clients@[i]
                })
            }),
            (*final(self) == Model { clients: final(self).clients, ..*old(self) }),
    {
        let n = self.clients.len();
        let mut i: usize = 0;
        while i < n
            invariant
                0 <= i <= n,
                n == self.clients@.len(),
                old(self).wf(),
                *self == *old(self),
                exists|k: int|
                    0 <= k < old(self).clients@.len() && controller_id(
                        (#[trigger] old(self).clients@[k]).controller,
                    ) == id,
                forall|k: int|
                    0 <= k < i ==> controller_id((#[trigger] self.clients@[k]).controller) != id,
            decreases n - i,
        {
            let b = self.clients[i];
            let found = match b.controller {
                Controller::Client(cid) => cid == id,
                Controller::Player => false,
            };
            if found {
                proof {
                    let c = client_index(*old(self), id);
                    assert(0 <= c < old(self).clients@.len() && controller_id(
                        old(self).clients@[c].controller,
                    ) == id);
                    assert(c == i as int);
                }
                let mut nb = b;
                if output >= HALF {
                    nb.apply_jump(self.rules.jump_speed);
                }
                self.clients.set(i, nb);
                return;
            }
            i = i + 1;
        }
        proof {
            assert(false);
        }
    }

    /// Append one obstacle at the next spawn point, its gap placed
    /// uniformly within the vertical band, and move the spawn point one
    /// spacing on.
    fn spawn_obstacle(&mut self)
        requires
            old(self).wf(),
            old(self).tick_max_x >= old(self).next_obstacle - old(self).rules.obstacle_dist,
        ensures
            final(self).wf(),
            final(self).obstacles@.len() == old(self).obstacles@.len() + 1,
            forall|i: int|
                0 <= i < old(self).obstacles@.len()
                    ==> #[trigger] final(self).obstacles@[i] == old(self).obstacles@[i],
            final(self).obstacles@.last().pos.x == old(self).next_obstacle,
            final(self).obstacles@.last().size == old(self).rules.obstacle_size,
            -(BOUND_Y - old(self).rules.obstacle_size.y / 2)
                <= final(self).obstacles@.last().pos.y
                <= BOUND_Y - old(self).rules.obstacle_size.y / 2,
            final(self).next_obstacle == old(self).next_obstacle
                + old(self).rules.obstacle_dist,
            (*final(self) == Model {
                obstacles: final(self).obstacles,
                next_obstacle: final(self).next_obstacle,
                ..*old(self)
            }),
    {
        let s2y = tdiv64(self.rules.obstacle_size.y, 2);
        let max_height = BOUND_Y - s2y;
        let height = random_in_range(-max_height, max_height);
        let ghost prev = self.obstacles@;
        self.obstacles.push(Obstacle {
            pos: Vec2 { x: self.next_obstacle, y: height },
            size: self.rules.obstacle_size,
        });
        self.next_obstacle = self.next_obstacle + self.rules.obstacle_dist;
        proof {
            assert(self.obstacles@.drop_last() =~= prev);
        }
    }

    /// The closing phase of one tick: every living population agent is
    /// bounds-checked and collided against the old obstacle list — an
    /// agent leaving the band or meeting a pillar dies on this same tick
    /// —, then the spawner appends at most one obstacle once the
    /// furthest living agent has come within one spacing of the next
    /// spawn point.
    pub fn finish_update(&mut self)
        requires
            old(self).wf(),
            old(self).mid_tick,
        ensures
            final(self).wf(),
            !final(self).mid_tick,
            final(self).player == old(self).player,
            final(self).rules == old(self).rules,
            final(self).generation == old(self).generation,
            final(self).max_score == old(self).max_score,
            final(self).tick_max_x == old(self).tick_max_x,
            final(self).clients@.len() == old(self).clients@.len(),
            forall|i: int|
                0 <= i < old(self).clients@.len() ==> checked(
                    old(self).clients@[i],
                    #[trigger] final(self).clients@[i],
                    old(self).obstacles@,
                ),
            ({
                if old(self).tick_max_x >= old(self).next_obstacle
                    - old(self).rules.obstacle_dist {
                    &&& final(self).obstacles@.len() == old(self).obstacles@.len() + 1
                    &&& forall|i: int|
                        0 <= i < old(self).obstacles@.len()
                            ==> #[trigger] final(self).obstacles@[i] == old(self).obstacles@[i]
                    &&& final(self).obstacles@.last().pos.x == old(self).next_obstacle
                    &&& final(self).obstacles@.last().size == old(self).rules.obstacle_size
                    &&& final(self).next_obstacle == old(self).next_obstacle
                        + old(self).rules.obstacle_dist
                } else {
                    &&& final(self).obstacles == old(self).obstacles
                    &&& final(self).next_obstacle == old(self).next_obstacle
                }
            }),
    {
        let n = self.clients.len();
        let mut i: usize = 0;
        while i < n
            invariant
                0 <= i <= n,
                n == self.clients@.len(),
                self.clients@.len() == old(self).clients@.len(),
                old(self).wf(),
                forall|k: int|
                    0 <= k < i ==> checked(
                        old(self).clients@[k],
                        #[trigger] self.clients@[k],
                        old(self).obstacles@,
                    ),
                forall|k: int| 0 <= k < i ==> (#[trigger] self.clients@[k]).wf(),
                forall|k: int|
                    i <= k < n ==> #[trigger] self.clients@[k] == old(self).clients@[k],
                self.player == old(self).player,
                self.rules == old(self).rules,
                self.obstacles == old(self).obstacles,
                self.next_obstacle == old(self).next_obstacle,
                self.generation == old(self).generation,
                self.max_score == old(self).max_score,
                self.mid_tick == old(self).mid_tick,
                self.tick_max_x == old(self).tick_max_x,
            decreases n - i,
        {
            let mut b = self.clients[i];
            if b.alive {
                b.check_bounds();
                let ghost b0 = b;
                let mut j: usize = 0;
                while j < self.obstacles.len()
                    invariant
                        0 <= j <= self.obstacles@.len(),
                        forall|k: int| 0 <= k < self.obstacles@.len()
                            ==> (#[trigger] self.obstacles@[k]).wf(),
                        in_val_vec(b0.pos),
                        0 < b0.radius <= crate::units::RADIUS_MAX,
                        b.pos == b0.pos,
                        b.speed == b0.speed,
                        b.best_x == b0.best_x,
                        b.radius == b0.radius,
                        b.controller == b0.controller,
                        b.alive == (b0.alive && forall|k: int|
                            0 <= k < j ==> !hits_at(
                                b0.pos.x as int,
                                b0.pos.y as int,
                                b0.radius as int,
                                #[trigger] self.obstacles@[k],
                            )),
                    decreases self.obstacles@.len() - j,
                {
                    let o = self.obstacles[j];
                    b.collide(&o);
                    j = j + 1;
                }
            }
            self.clients.set(i, b);
            i = i + 1;
        }
        if self.tick_max_x >= self.next_obstacle - self.rules.obstacle_dist {
            self.spawn_obstacle();
        }
        self.mid_tick = false;
    }

    /// Whether [`Model::update`] may run with this time step: nothing is
    /// mid-tick, the step is within bounds, no agent has flown beyond
    /// the range one more tick is provably exact for, and the generation
    /// counter has room.
    pub fn can_update(&self, dt: i64) -> (r: bool)
        ensures
            r == (self.step_ok() && 0 <= dt <= DT_MAX && self.generation < usize::MAX
                && !self.mid_tick),
    {
        if dt < 0 || dt > DT_MAX {
            return false;
        }
        if self.generation >= usize::MAX {
            return false;
        }
        if self.mid_tick {
            return false;
        }
        if self.player.alive && !self.player.in_step_check() {
            return false;
        }
        let mut i: usize = 0;
        while i < self.clients.len()
            invariant
                0 <= i <= self.clients@.len(),
                forall|k: int| 0 <= k < i
                    ==> ((#[trigger] self.clients@[k]).alive ==> self.clients@[k].in_step()),
            decreases self.clients@.len() - i,
        {
            let b = &self.clients[i];
            if b.alive && !b.in_step_check() {
                return false;
            }
            i = i + 1;
        }
        true
    }

    /// Route one host event: a jump command straight to the player (a
    /// dead player ignores it), or the manual reset, which runs the full
    /// generation transition immediately, whatever is alive or dead.
    pub fn handle_event(&mut self, event: &Event) -> (r: Option<Vec<Score>>)
        requires
            old(self).wf(),
            !old(self).mid_tick,
            old(self).generation < usize::MAX,
        ensures
            final(self).wf(),
            (match *event {
                Event::Jump => {
                    &&& r is None
                    &&& final(self).player == (if old(self).player.alive {
                        Bird {
                            speed: Vec2 {
                                x: old(self).player.speed.x,
                                y: old(self).rules.jump_speed,
                            },
                            ..old(self).player
                        }
                    } else {
                        old(self).player
                    })
                    &&& (*final(self) == Model { player: final(self).player, ..*old(self) })
                },
                Event::Reset => {
                    &&& r matches Some(s) && concluded(*old(self), *final(self), s@)
                },
            }),
    {
        match event {
            Event::Jump => {
                let jump_speed = self.rules.jump_speed;
                self.player.apply_jump(jump_speed);
                None
            },
            Event::Reset => {
                let scores = self.next_generation();
                Some(scores)
            },
        }
    }
}

} // verus!
