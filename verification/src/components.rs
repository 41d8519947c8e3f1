//! Plain data shared by every part of the simulation.

use vstd::prelude::*;

verus! {

/// Length units in one pixel.
pub const UNITS_PER_PIXEL: i32 = 1_000;

/// Edge of one map tile, in length units.
pub const TILE_SIZE: i32 = 64_000;

/// Width of the player sprite, in length units.
pub const PLAYER_WIDTH: i32 = 64_000;

/// Height of the player sprite, in length units.
pub const PLAYER_HEIGHT: i32 = 128_000;

/// A point of the playing field, in length units.
#[derive(Clone, Copy, Debug, PartialEq, Eq, Structural)]
pub struct Position {
    pub x: i32,
    pub y: i32,
}

/// Full width and height of an axis-aligned rectangle, in length units.
#[derive(Clone, Copy, Debug, PartialEq, Eq, Structural)]
pub struct Size {
    pub width: i32,
    pub height: i32,
}

/// Displacement that an entity intends to make during one tick, per axis.
#[derive(Clone, Copy, Debug, PartialEq, Eq, Structural)]
pub struct Velocity {
    pub x: i64,
    pub y: i64,
}

/// Marker for entities whose position changes from tick to tick.
#[derive(Clone, Copy, Debug, PartialEq, Eq, Structural)]
pub struct Movable;

/// The coordinate nearest to `v` that a `Position` can hold.
pub open spec fn clamp_coord(v: int) -> int {
    if v < i32::MIN {
        i32::MIN as int
    } else if v > i32::MAX {
        i32::MAX as int
    } else {
        v
    }
}

/// Brings a value into the coordinate range.
pub fn to_coord(value: i128) -> (coord: i32)
    ensures
        coord == clamp_coord(value as int),
{
    if value < i32::MIN as i128 {
        i32::MIN
    } else if value > i32::MAX as i128 {
        i32::MAX
    } else {
        value as i32
    }
}

/// Moves a coordinate by `delta`, stopping at the ends of the coordinate range.
pub fn offset_coord(coord: i32, delta: i64) -> (moved: i32)
    ensures
        moved == clamp_coord(coord + delta),
{
    to_coord(coord as i128 + delta as i128)
}

impl Size {
    /// A square of the given edge.
    pub fn splat(edge: i32) -> (size: Size)
        ensures
            size == (Size { width: edge, height: edge }),
    {
        Size { width: edge, height: edge }
    }
}

} // verus!
