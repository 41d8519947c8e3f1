//! Bombs: armed when placed, turned into an explosion when the fuse has run out.

use vstd::prelude::*;
use crate::components::Position;
use crate::seq_facts::{
    lemma_filter_single, lemma_filter_splits, lemma_filter_take_next, lemma_take_all,
};
use crate::timer::{
    lemma_total_time_nonnegative, once_elapsed, once_finished, tick_once_timer, total_time,
};

verus! {

/// Length of a bomb's fuse, in microseconds.
pub const BOMB_TIME: u32 = 2_000_000;

/// An armed bomb: where it lies and how long it has been burning, in microseconds.
#[derive(Clone, Copy, Debug, PartialEq, Eq, Structural)]
pub struct Bomb {
    pub position: Position,
    pub elapsed: u32,
}

/// Request to create an explosion at a position.
#[derive(Clone, Copy, Debug, PartialEq, Eq, Structural)]
pub struct ExplosionToSpawn(pub Position);

impl Bomb {
    /// A bomb placed at `position` whose fuse has just been lit.
    pub fn new(position: Position) -> (bomb: Bomb)
        ensures
            bomb == (Bomb { position, elapsed: 0 }),
    {
        Bomb { position, elapsed: 0 }
    }

    /// Whether the fuse runs out during a tick of `delta` microseconds.
    pub open spec fn expires(self, delta: u32) -> bool {
        once_finished(BOMB_TIME as int, self.elapsed as int, delta as int)
    }

    /// The bomb after a tick of `delta` microseconds.
    pub open spec fn advanced(self, delta: u32) -> Bomb {
        Bomb {
            position: self.position,
            elapsed: once_elapsed(BOMB_TIME as int, self.elapsed as int, delta as int) as u32,
        }
    }
}

/// Selects the bombs that stay armed through a tick of `delta` microseconds.
pub open spec fn stays_armed(delta: u32) -> spec_fn(Bomb) -> bool {
    |bomb: Bomb| !bomb.expires(delta)
}

/// Selects the bombs whose fuse runs out during a tick of `delta` microseconds.
pub open spec fn goes_off(delta: u32) -> spec_fn(Bomb) -> bool {
    |bomb: Bomb| bomb.expires(delta)
}

/// Advances a bomb by `delta` microseconds.
pub open spec fn burn(delta: u32) -> spec_fn(Bomb) -> Bomb {
    |bomb: Bomb| bomb.advanced(delta)
}

/// The explosion that a bomb asks for when it goes off.
pub open spec fn blast_request() -> spec_fn(Bomb) -> ExplosionToSpawn {
    |bomb: Bomb| ExplosionToSpawn(bomb.position)
}

/// The bombs still armed after a tick, in their old order, each with its fuse advanced.
pub open spec fn armed_after(bombs: Seq<Bomb>, delta: u32) -> Seq<Bomb> {
    bombs.filter(stays_armed(delta)).map_values(burn(delta))
}

/// The explosions asked for by the bombs that go off during a tick, in the bombs' order.
pub open spec fn explosions_due(bombs: Seq<Bomb>, delta: u32) -> Seq<ExplosionToSpawn> {
    bombs.filter(goes_off(delta)).map_values(blast_request())
}

/// Advances every fuse by `delta` microseconds. A bomb whose fuse has run out leaves the
/// list, and a request for an explosion at its position is returned in its place.
pub fn explode_bomb_system(bombs: &mut Vec<Bomb>, delta: u32) -> (spawns: Vec<ExplosionToSpawn>)
    ensures
        final(bombs)@ == armed_after(old(bombs)@, delta),
        spawns@ == explosions_due(old(bombs)@, delta),
{
    let mut kept: Vec<Bomb> = Vec::new();
    let mut spawns: Vec<ExplosionToSpawn> = Vec::new();
    let mut i: usize = 0;
    while i < bombs.len()
        invariant
            i <= bombs.len(),
            *bombs == *old(bombs),
            kept@ == armed_after(bombs@.take(i as int), delta),
            spawns@ == explosions_due(bombs@.take(i as int), delta),
        decreases bombs.len() - i,
    {
        let bomb = bombs[i];
        let (elapsed, finished) = tick_once_timer(BOMB_TIME, bomb.elapsed, delta);
        proof {
            lemma_filter_take_next(bombs@, stays_armed(delta), i as int);
            lemma_filter_take_next(bombs@, goes_off(delta), i as int);
        }
        if finished {
            spawns.push(ExplosionToSpawn(bomb.position));
        } else {
            kept.push(Bomb { position: bomb.position, elapsed });
        }
        i += 1;
    }
    proof {
        lemma_take_all(bombs@);
    }
    *bombs = kept;
    spawns
}

/// The bombs still armed after a run of ticks.
pub open spec fn armed_after_all(bombs: Seq<Bomb>, deltas: Seq<u32>) -> Seq<Bomb>
    decreases deltas.len(),
{
    if deltas.len() == 0 {
        bombs
    } else {
        armed_after_all(armed_after(bombs, deltas.first()), deltas.drop_first())
    }
}

/// Every explosion asked for during a run of ticks, in the order of the requests.
pub open spec fn explosions_due_all(bombs: Seq<Bomb>, deltas: Seq<u32>) -> Seq<ExplosionToSpawn>
    decreases deltas.len(),
{
    if deltas.len() == 0 {
        Seq::empty()
    } else {
        explosions_due(bombs, deltas.first()) + explosions_due_all(
            armed_after(bombs, deltas.first()),
            deltas.drop_first(),
        )
    }
}

/// In one tick every bomb either stays armed or turns into exactly one request for an
/// explosion: no bomb is lost and none explodes twice.
pub proof fn lemma_bomb_stays_or_explodes(bombs: Seq<Bomb>, delta: u32)
    ensures
        armed_after(bombs, delta).len() + explosions_due(bombs, delta).len() == bombs.len(),
{
    lemma_filter_splits(bombs, goes_off(delta), stays_armed(delta));
}

/// A tick over a single bomb either removes it and asks for one explosion at its position,
/// or keeps it with its fuse advanced and asks for nothing.
pub proof fn lemma_single_bomb_tick(bomb: Bomb, delta: u32)
    ensures
        bomb.expires(delta) ==> armed_after(seq![bomb], delta) == Seq::<Bomb>::empty()
            && explosions_due(seq![bomb], delta) == seq![ExplosionToSpawn(bomb.position)],
        !bomb.expires(delta) ==> armed_after(seq![bomb], delta) == seq![bomb.advanced(delta)]
            && explosions_due(seq![bomb], delta) == Seq::<ExplosionToSpawn>::empty(),
{
    lemma_filter_single(bomb, stays_armed(delta));
    lemma_filter_single(bomb, goes_off(delta));
}

/// With no bomb on the field, no run of ticks creates a bomb or asks for an explosion.
pub proof fn lemma_no_bombs_no_explosions(deltas: Seq<u32>)
    ensures
        armed_after_all(Seq::<Bomb>::empty(), deltas) == Seq::<Bomb>::empty(),
        explosions_due_all(Seq::<Bomb>::empty(), deltas) == Seq::<ExplosionToSpawn>::empty(),
    decreases deltas.len(),
{
    if deltas.len() > 0 {
        let delta = deltas.first();
        assert(armed_after(Seq::<Bomb>::empty(), delta) =~= Seq::<Bomb>::empty());
        lemma_no_bombs_no_explosions(deltas.drop_first());
    }
}

/// A bomb is gone as soon as the ticks since it was placed add up to the length of its
/// fuse, and by then exactly one explosion has been asked for, at the bomb's position.
/// Until then the bomb stays armed and no explosion is asked for.
pub proof fn lemma_bomb_explodes_after_fuse(bomb: Bomb, deltas: Seq<u32>)
    requires
        bomb.elapsed < BOMB_TIME,
    ensures
        bomb.elapsed + total_time(deltas) >= BOMB_TIME ==> armed_after_all(seq![bomb], deltas)
            == Seq::<Bomb>::empty() && explosions_due_all(seq![bomb], deltas) == seq![
            ExplosionToSpawn(bomb.position),
        ],
        bomb.elapsed + total_time(deltas) < BOMB_TIME ==> armed_after_all(seq![bomb], deltas)
            == seq![
            Bomb { position: bomb.position, elapsed: (bomb.elapsed + total_time(deltas)) as u32 },
        ] && explosions_due_all(seq![bomb], deltas) == Seq::<ExplosionToSpawn>::empty(),
    decreases deltas.len(),
{
    if deltas.len() > 0 {
        let delta = deltas.first();
        let rest = deltas.drop_first();
        lemma_single_bomb_tick(bomb, delta);
        lemma_total_time_nonnegative(rest);
        if bomb.expires(delta) {
            lemma_no_bombs_no_explosions(rest);
        } else {
            lemma_bomb_explodes_after_fuse(bomb.advanced(delta), rest);
        }
    }
}

} // verus!
