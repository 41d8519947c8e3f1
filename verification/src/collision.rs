//! Overlap of axis-aligned rectangles, the one geometric test of the game.

use vstd::prelude::*;
use crate::components::{Position, Size};

verus! {

/// Distance between two coordinates.
pub open spec fn distance(a: int, b: int) -> int {
    if a >= b {
        a - b
    } else {
        b - a
    }
}

/// Two rectangles, each given by its centre and its full extent, overlap when on both axes
/// the centres are strictly closer than the sum of the half extents. Rectangles that only
/// touch do not overlap.
pub open spec fn overlap(a_pos: Position, a_size: Size, b_pos: Position, b_size: Size) -> bool {
    &&& 2 * distance(a_pos.x as int, b_pos.x as int) < a_size.width + b_size.width
    &&& 2 * distance(a_pos.y as int, b_pos.y as int) < a_size.height + b_size.height
}

/// Tells whether the rectangle of extent `a_size` centred on `a_pos` overlaps the one of
/// extent `b_size` centred on `b_pos`.
pub fn collide(a_pos: Position, a_size: Size, b_pos: Position, b_size: Size) -> (hit: bool)
    ensures
        hit == overlap(a_pos, a_size, b_pos, b_size),
{
    let dx: i64 = a_pos.x as i64 - b_pos.x as i64;
    let dy: i64 = a_pos.y as i64 - b_pos.y as i64;
    let gap_x: i64 = if dx >= 0 { dx } else { -dx };
    let gap_y: i64 = if dy >= 0 { dy } else { -dy };
    let reach_x: i64 = a_size.width as i64 + b_size.width as i64;
    let reach_y: i64 = a_size.height as i64 + b_size.height as i64;
    2 * gap_x < reach_x && 2 * gap_y < reach_y
}

/// Overlap does not depend on the order in which the two rectangles are given.
pub proof fn lemma_overlap_symmetric(a_pos: Position, a_size: Size, b_pos: Position, b_size: Size)
    ensures
        overlap(a_pos, a_size, b_pos, b_size) == overlap(b_pos, b_size, a_pos, a_size),
{
}

/// A rectangle of positive extent overlaps itself.
pub proof fn lemma_overlap_reflexive(pos: Position, size: Size)
    requires
        size.width > 0,
        size.height > 0,
    ensures
        overlap(pos, size, pos, size),
{
}

} // verus!
