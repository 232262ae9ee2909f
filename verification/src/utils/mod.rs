//! World units, points and directions.

use vstd::prelude::*;

pub mod sprite_to_colliders;
pub mod sprites;

verus! {

/// Sub-units in one world unit.
pub const UNIT: i64 = 1000;

/// Largest magnitude of any coordinate, in sub-units.
pub const WORLD_MAX: i64 = 1_000_000_000;

/// Largest magnitude of a coordinate at which a shape may be anchored: one
/// tile short of the edge of the world, so that a shape no larger than a tile
/// stays inside it.
pub const POSITION_MAX: i64 = 999_968_000;

/// Is `v` a coordinate inside the world?
pub open spec fn in_world(v: int) -> bool {
    -WORLD_MAX <= v <= WORLD_MAX
}

/// Can a tile-sized shape be anchored at coordinate `v`?
pub open spec fn placeable(v: int) -> bool {
    -POSITION_MAX <= v <= POSITION_MAX
}

/// The value of `v` pulled back into `[-POSITION_MAX, POSITION_MAX]`.
pub open spec fn clamp_position(v: int) -> int {
    if v < -POSITION_MAX {
        -POSITION_MAX as int
    } else if v > POSITION_MAX {
        POSITION_MAX as int
    } else {
        v
    }
}

/// A world-space coordinate, in sub-units.
#[derive(Clone, Copy, Debug, PartialEq, Eq, Structural)]
pub struct Point2D {
    pub x: i64,
    pub y: i64,
}

impl Point2D {
    /// Both coordinates lie inside the world.
    pub open spec fn wf(self) -> bool {
        in_world(self.x as int) && in_world(self.y as int)
    }

    /// Both coordinates can anchor a tile-sized shape.
    pub open spec fn is_placeable(self) -> bool {
        placeable(self.x as int) && placeable(self.y as int)
    }

    /// Tells whether a tile-sized shape can be anchored at this point.
    pub fn can_anchor(&self) -> (r: bool)
        ensures
            r == self.is_placeable(),
    {
        -POSITION_MAX <= self.x && self.x <= POSITION_MAX && -POSITION_MAX <= self.y && self.y
            <= POSITION_MAX
    }
}

/// One of the four axis-aligned directions of travel, or `Still` for a
/// stationary hazard.
#[derive(Clone, Copy, Debug, PartialEq, Eq, Structural)]
pub enum Direction {
    Left,
    Right,
    Top,
    Bottom,
    Still,
}

} // verus!
