//! A static gap pair: two pillars leaving an opening the agents fly through.

use vstd::prelude::*;
use crate::units::{Vec2, in_val_vec, in_size};

verus! {

/// One obstacle. `pos` is the centre of the gap opening; `size.x` is the
/// pillar width and `size.y` the height of the opening. Immutable once
/// created.
#[derive(Clone, Copy, Debug, PartialEq, Eq, Structural)]
pub struct Obstacle {
    pub pos: Vec2,
    pub size: Vec2,
}

impl Obstacle {
    /// Within storage bounds, with positive extents.
    pub open spec fn wf(self) -> bool {
        &&& in_val_vec(self.pos)
        &&& in_size(self.size)
    }

    /// Horizontal coordinate of the far (right) edge of the pillars.
    pub open spec fn far_edge(self) -> int {
        self.pos.x + self.size.x / 2
    }
}

} // verus!
