//! The immutable configuration of one run.

use vstd::prelude::*;
use crate::units::{Vec2, in_gravity, in_size, RADIUS_MAX, JUMP_MAX, DIST_MAX};

verus! {

/// Configuration loaded once before a run and never mutated afterwards.
#[derive(Clone, Copy, Debug, PartialEq, Eq, Structural)]
pub struct Rules {
    /// Acceleration added to every living agent's speed each tick.
    pub gravity: Vec2,
    /// Collision radius of every agent.
    pub bird_radius: i64,
    /// Vertical speed an agent's speed is replaced with on a jump.
    pub jump_speed: i64,
    /// Pillar width and gap height of every obstacle.
    pub obstacle_size: Vec2,
    /// Horizontal spacing between consecutive obstacles.
    pub obstacle_dist: i64,
    /// Whether the player agent takes part in the all-dead condition that
    /// ends a generation.
    pub player_counts: bool,
}

impl Rules {
    /// Machine bounds on the configuration: finite magnitudes, positive
    /// extents, positive spacing.
    pub open spec fn wf(self) -> bool {
        &&& in_gravity(self.gravity)
        &&& 0 < self.bird_radius <= RADIUS_MAX
        &&& -JUMP_MAX <= self.jump_speed <= JUMP_MAX
        &&& in_size(self.obstacle_size)
        &&& 0 < self.obstacle_dist <= DIST_MAX
    }

    /// Runtime check of [`Rules::wf`], for callers outside verified code.
    pub fn is_wf(&self) -> (r: bool)
        ensures
            r == self.wf(),
    {
        crate::units::in_gravity_check(self.gravity)
            && 0 < self.bird_radius && self.bird_radius <= RADIUS_MAX
            && -JUMP_MAX <= self.jump_speed && self.jump_speed <= JUMP_MAX
            && crate::units::in_size_check(self.obstacle_size)
            && 0 < self.obstacle_dist && self.obstacle_dist <= DIST_MAX
    }
}

} // verus!
