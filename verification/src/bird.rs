//! An agent: physical state, a decision source, and its own physics,
//! bounds check and collision test.

use vstd::prelude::*;
use crate::units::{
    Vec2, tdiv, tdiv64, lemma_tdiv_bounds, in_val_vec, in_gravity,
    SCALE, HALF, BOUND_Y, VAL_MAX, STEP_POS_MAX, STEP_SPEED_MAX, POST_POS_MAX,
    POST_SPEED_MAX, DT_MAX, GRAVITY_MAX, RADIUS_MAX, JUMP_MAX,
};
use crate::obstacle::Obstacle;

verus! {

/// Of two signed distances, the one of smaller magnitude; the second on a
/// tie.
pub open spec fn nearer(a: int, b: int) -> int {
    if vstd::math::abs(a) < vstd::math::abs(b) {
        a
    } else {
        b
    }
}

fn nearer64(a: i64, b: i64) -> (r: i64)
    requires
        a > i64::MIN,
        b > i64::MIN,
    ensures
        r == nearer(a as int, b as int),
{
    let ma: i64 = if a >= 0 { a } else { -a };
    let mb: i64 = if b >= 0 { b } else { -b };
    if ma < mb {
        a
    } else {
        b
    }
}

/// The axis-aligned proximity test an agent dies by, over the agent centre
/// `(px, py)` with collision radius `radius` and the gap centred at
/// `(ox, oy)` with pillar width `sx` and opening height `sy`.
///
/// The horizontal distance is the signed distance to the nearer pillar
/// edge. Within radius of it: fully past either edge of the opening kills
/// outright; inside the pillar footprint the vertical clearance alone
/// decides; outside it the squared corner distance decides, so pillar
/// corners are rounded. Boundary equality everywhere counts as a miss.
pub open spec fn hits(px: int, py: int, radius: int, ox: int, oy: int, sx: int, sy: int) -> bool {
    let dist_x = nearer(ox - sx / 2 - px, px - ox - sx / 2);
    &&& dist_x < radius
    &&& {
        let dist_up = oy + sy / 2 - py;
        let dist_down = py - oy + sy / 2;
        ||| dist_up <= 0
        ||| dist_down <= 0
        ||| {
            let dist_y = nearer(dist_up, dist_down);
            if dist_x <= 0 {
                dist_y < radius
            } else {
                dist_x * dist_x + dist_y * dist_y < radius * radius
            }
        }
    }
}

/// Index of the first obstacle whose far edge is still ahead of the
/// horizontal position `x`, or the sequence length when none qualifies.
pub open spec fn first_ahead(obs: Seq<Obstacle>, x: int) -> int
    decreases obs.len(),
{
    if obs.len() == 0 {
        0
    } else if x <= obs[0].far_edge() {
        0
    } else {
        1 + first_ahead(obs.subrange(1, obs.len() as int), x)
    }
}

/// Every obstacle before `first_ahead` is already passed, and the one at
/// it, if any, is still ahead.
pub proof fn lemma_first_ahead(obs: Seq<Obstacle>, x: int)
    ensures
        0 <= first_ahead(obs, x) <= obs.len(),
        forall|j: int| 0 <= j < first_ahead(obs, x) ==> x > (#[trigger] obs[j]).far_edge(),
        first_ahead(obs, x) < obs.len() ==> x <= obs[first_ahead(obs, x)].far_edge(),
    decreases obs.len(),
{
    if obs.len() > 0 && !(x <= obs[0].far_edge()) {
        let tail = obs.subrange(1, obs.len() as int);
        lemma_first_ahead(tail, x);
        assert forall|j: int| 0 <= j < first_ahead(obs, x) implies x > (#[trigger] obs[j]).far_edge() by {
            if j > 0 {
                assert(tail[j - 1] == obs[j]);
            }
        }
        if first_ahead(obs, x) < obs.len() {
            assert(tail[first_ahead(tail, x)] == obs[first_ahead(obs, x)]);
        }
    }
}

/// An index with the two properties above is `first_ahead` itself.
pub proof fn lemma_first_ahead_is(obs: Seq<Obstacle>, x: int, k: int)
    requires
        0 <= k <= obs.len(),
        forall|j: int| 0 <= j < k ==> x > (#[trigger] obs[j]).far_edge(),
        k < obs.len() ==> x <= obs[k].far_edge(),
    ensures
        first_ahead(obs, x) == k,
{
    lemma_first_ahead(obs, x);
    let f = first_ahead(obs, x);
    if f < k {
        assert(x > obs[f].far_edge());
        assert(x <= obs[f].far_edge());
    } else if f > k {
        assert(x > obs[k].far_edge());
        assert(x <= obs[k].far_edge());
    }
}

/// The two agent-own entries of the sensed vector: the bias fixed at one
/// unit, then the normalized vertical position.
pub open spec fn sense_head(b: Bird) -> Seq<int> {
    seq![SCALE as int, tdiv(b.pos.y as int, 40) + HALF]
}

/// The full sensed vector: the head, then, for the first obstacle still
/// ahead, the normalized distance to its far edge and the normalized
/// vertical distances to the two edges of its opening; zero-filled when no
/// obstacle is ahead.
pub open spec fn sense_spec(b: Bird, obs: Seq<Obstacle>) -> Seq<int> {
    let k = first_ahead(obs, b.pos.x as int);
    if k < obs.len() {
        let o = obs[k];
        sense_head(b) + seq![
            tdiv(o.far_edge() - b.pos.x, 50),
            tdiv(b.pos.y - o.pos.y - o.size.y / 2, 40) + HALF as int,
            tdiv(b.pos.y - o.pos.y + o.size.y / 2, 40) + HALF as int,
        ]
    } else {
        sense_head(b) + seq![0int, 0int, 0int]
    }
}

/// [`hits`] over an agent and an obstacle.
pub open spec fn hits_obstacle(b: Bird, o: Obstacle) -> bool {
    hits(
        b.pos.x as int,
        b.pos.y as int,
        b.radius as int,
        o.pos.x as int,
        o.pos.y as int,
        o.size.x as int,
        o.size.y as int,
    )
}

/// [`hits`] at an explicit agent centre, against an obstacle.
pub open spec fn hits_at(px: int, py: int, radius: int, o: Obstacle) -> bool {
    hits(px, py, radius, o.pos.x as int, o.pos.y as int, o.size.x as int, o.size.y as int)
}

/// The agent's centre clears every obstacle of the list.
pub open spec fn survives_all(b: Bird, obs: Seq<Obstacle>) -> bool {
    forall|i: int| 0 <= i < obs.len()
        ==> !hits_at(b.pos.x as int, b.pos.y as int, b.radius as int, #[trigger] obs[i])
}

/// How one gravity integration step relates an agent's state before the
/// step to its state after it: a dead agent is frozen, a living one moves
/// by [`Bird::px_after`] and friends and stays alive until the checks.
pub open spec fn integrated(pre: Bird, post: Bird, gravity: Vec2, dt: int) -> bool {
    if pre.alive {
        &&& post.speed.x == pre.vx_after(gravity, dt)
        &&& post.speed.y == pre.vy_after(gravity, dt)
        &&& post.pos.x == pre.px_after(gravity, dt)
        &&& post.pos.y == pre.py_after(gravity, dt)
        &&& post.best_x == pre.best_x_after(gravity, dt)
        &&& post.alive == pre.alive
        &&& post.radius == pre.radius
        &&& post.controller == pre.controller
    } else {
        post == pre
    }
}

/// How the end-of-tick checks relate an agent's state before them to its
/// state after them: only the alive flag moves, and it survives exactly
/// when it was alive, within the vertical band, and clear of every
/// obstacle.
pub open spec fn checked(pre: Bird, post: Bird, obs: Seq<Obstacle>) -> bool {
    post == (Bird {
        alive: pre.alive && -BOUND_Y <= pre.pos.y <= BOUND_Y && survives_all(pre, obs),
        ..pre
    })
}

/// A living agent survives its whole tick exactly when its integrated
/// position is within the vertical band and clear of every obstacle.
pub open spec fn alive_after_tick(pre: Bird, gravity: Vec2, dt: int, obs: Seq<Obstacle>) -> bool {
    &&& pre.alive
    &&& -BOUND_Y <= pre.py_after(gravity, dt) <= BOUND_Y
    &&& forall|i: int| 0 <= i < obs.len()
        ==> !hits_at(
            pre.px_after(gravity, dt),
            pre.py_after(gravity, dt),
            pre.radius as int,
            #[trigger] obs[i],
        )
}

/// One whole tick of an agent that takes no decision (the player's
/// physics; its jumps arrive as separate events): integration, bounds
/// check, collision checks.
pub open spec fn ticked(pre: Bird, post: Bird, gravity: Vec2, dt: int, obs: Seq<Obstacle>) -> bool {
    if pre.alive {
        &&& post.speed.x == pre.vx_after(gravity, dt)
        &&& post.speed.y == pre.vy_after(gravity, dt)
        &&& post.pos.x == pre.px_after(gravity, dt)
        &&& post.pos.y == pre.py_after(gravity, dt)
        &&& post.best_x == pre.best_x_after(gravity, dt)
        &&& post.alive == alive_after_tick(pre, gravity, dt, obs)
        &&& post.radius == pre.radius
        &&& post.controller == pre.controller
    } else {
        post == pre
    }
}

/// One whole tick of a population-controlled agent whose decision this
/// tick is `jump`: as [`ticked`], except that a jump replaces the
/// vertical speed after the move (so it shows in the next tick's motion).
pub open spec fn client_ticked(
    pre: Bird,
    post: Bird,
    gravity: Vec2,
    dt: int,
    jump: bool,
    jump_speed: int,
    obs: Seq<Obstacle>,
) -> bool {
    if pre.alive {
        &&& post.speed.x == pre.vx_after(gravity, dt)
        &&& post.speed.y == (if jump {
            jump_speed
        } else {
            pre.vy_after(gravity, dt)
        })
        &&& post.pos.x == pre.px_after(gravity, dt)
        &&& post.pos.y == pre.py_after(gravity, dt)
        &&& post.best_x == pre.best_x_after(gravity, dt)
        &&& post.alive == alive_after_tick(pre, gravity, dt, obs)
        &&& post.radius == pre.radius
        &&& post.controller == pre.controller
    } else {
        post == pre
    }
}

/// Determinism of an agent's tick: the same state before the tick, the
/// same rules of motion and the same obstacle list leave exactly one
/// possible state after it.
pub proof fn lemma_tick_deterministic(
    pre: Bird,
    a: Bird,
    b: Bird,
    gravity: Vec2,
    dt: int,
    obs: Seq<Obstacle>,
)
    requires
        ticked(pre, a, gravity, dt, obs),
        ticked(pre, b, gravity, dt, obs),
    ensures
        a == b,
{
}

/// Determinism of a decision-taking agent's tick: the same state, the
/// same decision, the same rules of motion and the same obstacle list
/// leave exactly one possible state after it. Two agents with identical
/// initial state and identical decision sequences therefore follow
/// identical trajectories, tick by tick.
pub proof fn lemma_client_tick_deterministic(
    pre: Bird,
    a: Bird,
    b: Bird,
    gravity: Vec2,
    dt: int,
    jump: bool,
    jump_speed: int,
    obs: Seq<Obstacle>,
)
    requires
        client_ticked(pre, a, gravity, dt, jump, jump_speed, obs),
        client_ticked(pre, b, gravity, dt, jump, jump_speed, obs),
    ensures
        a == b,
{
}

/// The collision test is symmetric under reflection about the vertical
/// line through the gap centre: an agent and its mirror image, approaching
/// the gap from opposite sides, hit alike. Pillars must be at least two
/// subunits wide, else the tie-break between the two pillar edges is not
/// mirrored.
pub proof fn lemma_hits_mirror(
    px: int,
    py: int,
    radius: int,
    ox: int,
    oy: int,
    sx: int,
    sy: int,
)
    requires
        sx / 2 >= 1,
    ensures
        hits(2 * ox - px, py, radius, ox, oy, sx, sy) == hits(px, py, radius, ox, oy, sx, sy),
{
    let s2 = sx / 2;
    let dl = ox - s2 - px;
    let dr = px - ox - s2;
    assert(ox - s2 - (2 * ox - px) == dr);
    assert((2 * ox - px) - ox - s2 == dl);
    if vstd::math::abs(dl) == vstd::math::abs(dr) {
        assert(dl + dr == -2 * s2);
        assert(dl == dr);
    }
    assert(nearer(dr, dl) == nearer(dl, dr));
}

/// [`lemma_hits_mirror`] stated over agents: a mirrored agent meeting the
/// same gap from the other side survives or dies exactly as the original.
pub proof fn lemma_collide_mirror(b: Bird, m: Bird, o: Obstacle)
    requires
        o.size.x / 2 >= 1,
        m.pos.x == 2 * o.pos.x - b.pos.x,
        m.pos.y == b.pos.y,
        m.radius == b.radius,
    ensures
        hits_obstacle(m, o) == hits_obstacle(b, o),
{
    lemma_hits_mirror(
        b.pos.x as int,
        b.pos.y as int,
        b.radius as int,
        o.pos.x as int,
        o.pos.y as int,
        o.size.x as int,
        o.size.y as int,
    );
}

/// The decision source of an agent: the human operator, or an externally
/// owned population member named by a stable identifier.
#[derive(Clone, Copy, Debug, PartialEq, Eq, Structural)]
pub enum Controller {
    Player,
    Client(u64),
}

/// One simulated agent. Once `alive` is false the whole state is frozen
/// until the next generation reset.
#[derive(Clone, Copy, Debug, PartialEq, Eq, Structural)]
pub struct Bird {
    pub alive: bool,
    pub pos: Vec2,
    pub radius: i64,
    pub speed: Vec2,
    /// Furthest horizontal position reached since the last reset.
    pub best_x: i64,
    pub controller: Controller,
}

impl Bird {
    /// Storage bounds and the running-maximum property of `best_x`.
    pub open spec fn wf(self) -> bool {
        &&& in_val_vec(self.pos)
        &&& in_val_vec(self.speed)
        &&& 0 < self.radius <= RADIUS_MAX
        &&& 0 <= self.best_x <= VAL_MAX
        &&& self.best_x >= self.pos.x
    }

    /// Small enough that one more tick cannot overflow.
    pub open spec fn in_step(self) -> bool {
        &&& -STEP_POS_MAX <= self.pos.x <= STEP_POS_MAX
        &&& -STEP_POS_MAX <= self.pos.y <= STEP_POS_MAX
        &&& -STEP_SPEED_MAX <= self.speed.x <= STEP_SPEED_MAX
        &&& -STEP_SPEED_MAX <= self.speed.y <= STEP_SPEED_MAX
    }

    /// Runtime check of [`Bird::in_step`].
    pub fn in_step_check(&self) -> (r: bool)
        ensures
            r == self.in_step(),
    {
        -STEP_POS_MAX <= self.pos.x && self.pos.x <= STEP_POS_MAX
            && -STEP_POS_MAX <= self.pos.y && self.pos.y <= STEP_POS_MAX
            && -STEP_SPEED_MAX <= self.speed.x && self.speed.x <= STEP_SPEED_MAX
            && -STEP_SPEED_MAX <= self.speed.y && self.speed.y <= STEP_SPEED_MAX
    }

    /// Horizontal speed after one integration step.
    pub open spec fn vx_after(self, gravity: Vec2, dt: int) -> int {
        self.speed.x + tdiv(gravity.x * dt, SCALE as int)
    }

    /// Vertical speed after one integration step.
    pub open spec fn vy_after(self, gravity: Vec2, dt: int) -> int {
        self.speed.y + tdiv(gravity.y * dt, SCALE as int)
    }

    /// Horizontal position after one integration step.
    pub open spec fn px_after(self, gravity: Vec2, dt: int) -> int {
        self.pos.x + tdiv(self.vx_after(gravity, dt) * dt, SCALE as int)
    }

    /// Vertical position after one integration step.
    pub open spec fn py_after(self, gravity: Vec2, dt: int) -> int {
        self.pos.y + tdiv(self.vy_after(gravity, dt) * dt, SCALE as int)
    }

    /// Furthest-reached mark after one integration step.
    pub open spec fn best_x_after(self, gravity: Vec2, dt: int) -> int {
        vstd::math::max(self.best_x as int, self.px_after(gravity, dt))
    }

    /// The agent in its start-of-generation state: revived at the origin
    /// with the starting speed, radius and decision source kept.
    pub open spec fn revived(self, start_speed: Vec2) -> Bird {
        Bird {
            alive: true,
            pos: Vec2 { x: 0, y: 0 },
            radius: self.radius,
            speed: start_speed,
            best_x: 0,
            controller: self.controller,
        }
    }

    /// One step of gravity integration: while alive, speed picks up
    /// `gravity * dt`, the position moves by the new speed times `dt`, and
    /// the furthest-reached mark is updated. A dead agent is left untouched.
    pub fn integrate(&mut self, gravity: Vec2, dt: i64)
        requires
            old(self).wf(),
            old(self).alive ==> old(self).in_step(),
            in_gravity(gravity),
            0 <= dt <= DT_MAX,
        ensures
            final(self).wf(),
            !old(self).alive ==> *final(self) == *old(self),
            integrated(*old(self), *final(self), gravity, dt as int),
            old(self).alive ==> {
                &&& -POST_POS_MAX <= final(self).pos.x <= POST_POS_MAX
                &&& -POST_POS_MAX <= final(self).pos.y <= POST_POS_MAX
                &&& -POST_SPEED_MAX <= final(self).speed.x <= POST_SPEED_MAX
                &&& -POST_SPEED_MAX <= final(self).speed.y <= POST_SPEED_MAX
            },
            final(self).alive == old(self).alive,
            final(self).radius == old(self).radius,
            final(self).controller == old(self).controller,
            final(self).best_x >= old(self).best_x,
    {
        if !self.alive {
            return;
        }
        assert(-1_000_000_000_000 <= gravity.x * dt <= 1_000_000_000_000)
            by (nonlinear_arith)
            requires
                -GRAVITY_MAX <= gravity.x <= GRAVITY_MAX,
                0 <= dt <= DT_MAX,
        ;
        assert(-1_000_000_000_000 <= gravity.y * dt <= 1_000_000_000_000)
            by (nonlinear_arith)
            requires
                -GRAVITY_MAX <= gravity.y <= GRAVITY_MAX,
                0 <= dt <= DT_MAX,
        ;
        proof {
            lemma_tdiv_bounds(gravity.x * dt, SCALE as int, 1_000_000_000_000);
            lemma_tdiv_bounds(gravity.y * dt, SCALE as int, 1_000_000_000_000);
        }
        let dvx = tdiv64(gravity.x * dt, SCALE);
        let dvy = tdiv64(gravity.y * dt, SCALE);
        self.speed.x = self.speed.x + dvx;
        self.speed.y = self.speed.y + dvy;
        assert(-2_000_000_000_000_000_000 <= self.speed.x * dt <= 2_000_000_000_000_000_000)
            by (nonlinear_arith)
            requires
                -POST_SPEED_MAX <= self.speed.x <= POST_SPEED_MAX,
                0 <= dt <= DT_MAX,
        ;
        assert(-2_000_000_000_000_000_000 <= self.speed.y * dt <= 2_000_000_000_000_000_000)
            by (nonlinear_arith)
            requires
                -POST_SPEED_MAX <= self.speed.y <= POST_SPEED_MAX,
                0 <= dt <= DT_MAX,
        ;
        proof {
            lemma_tdiv_bounds(self.speed.x * dt, SCALE as int, 2_000_000_000_000_000_000);
            lemma_tdiv_bounds(self.speed.y * dt, SCALE as int, 2_000_000_000_000_000_000);
        }
        let dpx = tdiv64(self.speed.x * dt, SCALE);
        let dpy = tdiv64(self.speed.y * dt, SCALE);
        self.pos.x = self.pos.x + dpx;
        self.pos.y = self.pos.y + dpy;
        if self.pos.x > self.best_x {
            self.best_x = self.pos.x;
        }
    }

    /// Replace the vertical speed with the configured jump speed; only a
    /// living agent jumps.
    pub fn apply_jump(&mut self, jump_speed: i64)
        requires
            -JUMP_MAX <= jump_speed <= JUMP_MAX,
        ensures
            !old(self).alive ==> *final(self) == *old(self),
            old(self).alive ==> (*final(self) == Bird {
                speed: Vec2 { x: old(self).speed.x, y: jump_speed },
                ..*old(self)
            }),
    {
        if self.alive {
            self.speed.y = jump_speed;
        }
    }

    /// Mark the agent dead when its vertical position has left the fixed
    /// band of `BOUND_Y` either way; the band edge itself is still alive.
    pub fn check_bounds(&mut self)
        ensures
            !old(self).alive ==> *final(self) == *old(self),
            (*final(self) == Bird {
                alive: old(self).alive
                    && -BOUND_Y <= old(self).pos.y <= BOUND_Y,
                ..*old(self)
            }),
    {
        if self.pos.y < -BOUND_Y || self.pos.y > BOUND_Y {
            self.alive = false;
        }
    }

    /// Mark the agent dead when it penetrates an obstacle's pillars, by the
    /// two-branch test of [`hits`]. Only evaluated while alive; a dead
    /// agent is left untouched.
    pub fn collide(&mut self, obstacle: &Obstacle)
        requires
            in_val_vec(old(self).pos),
            0 < old(self).radius <= RADIUS_MAX,
            obstacle.wf(),
        ensures
            !old(self).alive ==> *final(self) == *old(self),
            (*final(self) == Bird {
                alive: old(self).alive && !hits_obstacle(*old(self), *obstacle),
                ..*old(self)
            }),
    {
        if !self.alive {
            return;
        }
        let s2x = tdiv64(obstacle.size.x, 2);
        let dist_left = obstacle.pos.x - s2x - self.pos.x;
        let dist_right = self.pos.x - obstacle.pos.x - s2x;
        let dist_x = nearer64(dist_left, dist_right);
        if dist_x < self.radius {
            let s2y = tdiv64(obstacle.size.y, 2);
            let dist_up = obstacle.pos.y + s2y - self.pos.y;
            let dist_down = self.pos.y - obstacle.pos.y + s2y;
            if dist_up <= 0 || dist_down <= 0 {
                self.alive = false;
                return;
            }
            let dist_y = nearer64(dist_up, dist_down);
            assert(dist_y <= s2y);
            if dist_x <= 0 {
                if dist_y < self.radius {
                    self.alive = false;
                }
            } else {
                assert(dist_x * dist_x <= RADIUS_MAX * RADIUS_MAX) by (nonlinear_arith)
                    requires
                        0 < dist_x <= RADIUS_MAX,
                ;
                assert(0 <= dist_y * dist_y <= 20_000 * 20_000) by (nonlinear_arith)
                    requires
                        0 < dist_y <= 20_000,
                ;
                assert(0 < self.radius * self.radius <= RADIUS_MAX * RADIUS_MAX)
                    by (nonlinear_arith)
                    requires
                        0 < self.radius <= RADIUS_MAX,
                ;
                if dist_x * dist_x + dist_y * dist_y < self.radius * self.radius {
                    self.alive = false;
                }
            }
        }
    }

    /// Sense the environment: the fixed-length input vector handed to a
    /// controller, as [`sense_spec`] lays it out. Length and ordering are
    /// part of the contract with the evolutionary engine.
    pub fn read(&self, obstacles: &Vec<Obstacle>) -> (r: Vec<i64>)
        requires
            in_val_vec(self.pos),
            forall|j: int| 0 <= j < obstacles@.len() ==> (#[trigger] obstacles@[j]).wf(),
        ensures
            r@.len() == 5,
            forall|j: int| 0 <= j < 5 ==> #[trigger] r@[j] == sense_spec(*self, obstacles@)[j],
    {
        let mut input: Vec<i64> = Vec::new();
        input.push(SCALE);
        proof {
            lemma_tdiv_bounds(self.pos.y as int, 40, VAL_MAX as int);
        }
        input.push(tdiv64(self.pos.y, 40) + HALF);
        let mut i: usize = 0;
        while i < obstacles.len()
            invariant
                0 <= i <= obstacles@.len(),
                forall|j: int| 0 <= j < i ==> self.pos.x > (#[trigger] obstacles@[j]).far_edge(),
                forall|j: int| 0 <= j < obstacles@.len() ==> (#[trigger] obstacles@[j]).wf(),
                in_val_vec(self.pos),
                input@.len() == 2,
                input@[0] == SCALE,
                input@[1] == tdiv(self.pos.y as int, 40) + HALF,
            decreases obstacles@.len() - i,
        {
            let o = &obstacles[i];
            let s2x = tdiv64(o.size.x, 2);
            let next = o.pos.x + s2x;
            assert(next == obstacles@[i as int].far_edge());
            if self.pos.x <= next {
                proof {
                    lemma_first_ahead_is(obstacles@, self.pos.x as int, i as int);
                    lemma_tdiv_bounds(next - self.pos.x, 50, 3 * VAL_MAX as int);
                }
                input.push(tdiv64(next - self.pos.x, 50));
                let s2y = tdiv64(o.size.y, 2);
                proof {
                    lemma_tdiv_bounds(self.pos.y - o.pos.y - s2y, 40, 3 * VAL_MAX as int);
                    lemma_tdiv_bounds(self.pos.y - o.pos.y + s2y, 40, 3 * VAL_MAX as int);
                }
                input.push(tdiv64(self.pos.y - o.pos.y - s2y, 40) + HALF);
                input.push(tdiv64(self.pos.y - o.pos.y + s2y, 40) + HALF);
                return input;
            }
            i = i + 1;
        }
        proof {
            lemma_first_ahead_is(obstacles@, self.pos.x as int, obstacles@.len() as int);
        }
        input.push(0);
        input.push(0);
        input.push(0);
        input
    }
}

} // verus!
