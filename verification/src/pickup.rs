//! Bomb pickups, which a destroyed wall leaves behind one time in four.

use vstd::prelude::*;
use rand::Rng;
use crate::components::Position;

verus! {

/// A destroyed wall leaves a pickup behind when a number drawn below this bound is zero.
pub const PICKUP_ODDS: u32 = 4;

/// A bomb lying on the field for the player to collect.
#[derive(Clone, Copy, Debug, PartialEq, Eq, Structural)]
pub struct BombPickup {
    pub position: Position,
}

/// Draws a number with `rand::thread_rng().gen_range(0..bound)`.
///
/// Trusted: the number drawn from a half-open range lies in that range. Nothing else is
/// claimed of it, so two draws may differ. The range must not be empty, or the generator
/// panics.
#[verifier::external_body]
pub(crate) fn random_below(bound: u32) -> (drawn: u32)
    requires
        bound > 0,
    ensures
        drawn < bound,
{
    rand::thread_rng().gen_range(0..bound)
}

/// What a wall destroyed at `position` leaves behind, given the number drawn for it: a
/// pickup at the wall's position if the number is zero, nothing otherwise.
pub open spec fn pickup_left(position: Position, roll: u32) -> Option<BombPickup> {
    if roll == 0 {
        Some(BombPickup { position })
    } else {
        None
    }
}

/// Decides what a wall destroyed at `position` leaves behind, given the number drawn for
/// it.
pub fn pickup_for_roll(position: Position, roll: u32) -> (left: Option<BombPickup>)
    ensures
        left == pickup_left(position, roll),
{
    if roll == 0 {
        Some(BombPickup { position })
    } else {
        None
    }
}

/// Draws one number below `PICKUP_ODDS` for each of `count` destroyed walls.
pub fn draw_rolls(count: usize) -> (rolls: Vec<u32>)
    ensures
        rolls@.len() == count,
        forall|k: int| 0 <= k < rolls@.len() ==> rolls@[k] < PICKUP_ODDS,
{
    let mut rolls: Vec<u32> = Vec::new();
    let mut k: usize = 0;
    while k < count
        invariant
            k <= count,
            rolls@.len() == k,
            forall|j: int| 0 <= j < rolls@.len() ==> rolls@[j] < PICKUP_ODDS,
        decreases count - k,
    {
        let roll: u32 = random_below(PICKUP_ODDS);
        rolls.push(roll);
        k += 1;
    }
    rolls
}

} // verus!
