//! Explosions: a fixed hazard area that plays through its frames and is then removed.

use vstd::prelude::*;
use crate::bomb::ExplosionToSpawn;
use crate::collision::{collide, overlap};
use crate::components::{Position, Size};
use crate::seq_facts::{
    lemma_filter_empty, lemma_filter_single, lemma_filter_take_next, lemma_take_all,
};
use crate::timer::{
    lemma_total_time_nonnegative, repeating_elapsed, repeating_fired, tick_repeating_timer,
    total_time,
};

verus! {

/// Time for which an explosion shows one frame, in microseconds.
pub const EXPLOSION_FRAME_TIME: u32 = 50_000;

/// Number of frames of an explosion. An explosion whose frame index has reached this
/// count is finished.
pub const EXPLOSION_FRAMES: u32 = 16;

/// Edge of the square that an explosion endangers, in length units: two and a half tiles.
pub const BLAST_SIZE: i32 = 160_000;

/// Time since an explosion last changed its frame, in microseconds.
#[derive(Clone, Copy, Debug, PartialEq, Eq, Structural)]
pub struct ExplosionTimer(pub u32);

impl Default for ExplosionTimer {
    fn default() -> (timer: ExplosionTimer)
        ensures
            timer == ExplosionTimer(0),
    {
        ExplosionTimer(0)
    }
}

/// A burning explosion: its centre, its frame timer and the index of the frame it shows.
#[derive(Clone, Copy, Debug, PartialEq, Eq, Structural)]
pub struct Explosion {
    pub position: Position,
    pub timer: ExplosionTimer,
    pub frame: u32,
}

/// The smaller of the frame count and `frame`.
pub open spec fn capped_frame(frame: int) -> int {
    if frame >= EXPLOSION_FRAMES {
        EXPLOSION_FRAMES as int
    } else {
        frame
    }
}

impl Explosion {
    /// An explosion that starts at `position`, showing its first frame.
    pub fn new(position: Position) -> (explosion: Explosion)
        ensures
            explosion == (Explosion { position, timer: ExplosionTimer(0), frame: 0 }),
    {
        Explosion { position, timer: ExplosionTimer(0), frame: 0 }
    }

    /// Whether the explosion has played all its frames.
    pub open spec fn spec_finished(&self) -> bool {
        self.frame >= EXPLOSION_FRAMES
    }

    /// Tells whether the explosion has played all its frames.
    #[verifier::when_used_as_spec(spec_finished)]
    pub fn finished(&self) -> (done: bool)
        ensures
            done == self.spec_finished(),
    {
        self.frame >= EXPLOSION_FRAMES
    }

    /// The explosion after `delta` microseconds: the frame index goes up by one each time
    /// the frame timer fires, and stops at the frame count.
    pub open spec fn advanced(self, delta: u32) -> Explosion {
        Explosion {
            position: self.position,
            timer: ExplosionTimer(
                repeating_elapsed(EXPLOSION_FRAME_TIME as int, self.timer.0 as int, delta as int) as u32,
            ),
            frame: capped_frame(
                self.frame + repeating_fired(
                    EXPLOSION_FRAME_TIME as int,
                    self.timer.0 as int,
                    delta as int,
                ),
            ) as u32,
        }
    }

    /// Whether the area endangered by the explosion overlaps the rectangle of extent
    /// `size` centred on `position`.
    pub open spec fn spec_reaches(&self, position: Position, size: Size) -> bool {
        overlap(self.position, Size { width: BLAST_SIZE, height: BLAST_SIZE }, position, size)
    }

    /// Tells whether the area endangered by the explosion overlaps the rectangle of extent
    /// `size` centred on `position`. The area is the same in every frame.
    #[verifier::when_used_as_spec(spec_reaches)]
    pub fn reaches(&self, position: Position, size: Size) -> (hit: bool)
        ensures
            hit == self.spec_reaches(position, size),
    {
        collide(self.position, Size::splat(BLAST_SIZE), position, size)
    }

    /// Advances the explosion by `delta` microseconds.
    pub fn advance(&self, delta: u32) -> (next: Explosion)
        ensures
            next == self.advanced(delta),
    {
        let (elapsed, fired) = tick_repeating_timer(EXPLOSION_FRAME_TIME, self.timer.0, delta);
        let reached: u64 = self.frame as u64 + fired as u64;
        let frame: u32 = if reached >= EXPLOSION_FRAMES as u64 {
            EXPLOSION_FRAMES
        } else {
            reached as u32
        };
        Explosion { position: self.position, timer: ExplosionTimer(elapsed), frame }
    }
}

/// Whether some explosion of the list endangers the rectangle of extent `size` centred on
/// `position`.
pub open spec fn any_reaches(explosions: Seq<Explosion>, position: Position, size: Size) -> bool {
    exists|k: int| 0 <= k < explosions.len() && (#[trigger] explosions[k]).spec_reaches(position, size)
}

/// Tells whether some explosion of the list endangers the rectangle of extent `size`
/// centred on `position`.
pub fn hit_by_explosion(explosions: &Vec<Explosion>, position: Position, size: Size) -> (hit: bool)
    ensures
        hit == any_reaches(explosions@, position, size),
{
    let mut k: usize = 0;
    while k < explosions.len()
        invariant
            k <= explosions.len(),
            forall|j: int| 0 <= j < k ==> !(#[trigger] explosions@[j]).spec_reaches(position, size),
        decreases explosions.len() - k,
    {
        if explosions[k].reaches(position, size) {
            return true;
        }
        k += 1;
    }
    false
}

/// The explosion that answers a request.
pub open spec fn ignite() -> spec_fn(ExplosionToSpawn) -> Explosion {
    |request: ExplosionToSpawn| Explosion { position: request.0, timer: ExplosionTimer(0), frame: 0 }
}

/// Advances an explosion by `delta` microseconds.
pub open spec fn animate(delta: u32) -> spec_fn(Explosion) -> Explosion {
    |explosion: Explosion| explosion.advanced(delta)
}

/// Selects the explosions that have frames left to play.
pub open spec fn still_burning() -> spec_fn(Explosion) -> bool {
    |explosion: Explosion| !explosion.spec_finished()
}

/// Turns every request into an explosion at the requested position, showing its first
/// frame. The new explosions follow the old ones, in the order of the requests, and the
/// list of requests is left empty.
pub fn explosion_to_spawn_system(spawns: &mut Vec<ExplosionToSpawn>, explosions: &mut Vec<Explosion>)
    ensures
        final(spawns)@ == Seq::<ExplosionToSpawn>::empty(),
        final(explosions)@ == old(explosions)@ + old(spawns)@.map_values(ignite()),
{
    let mut i: usize = 0;
    while i < spawns.len()
        invariant
            i <= spawns.len(),
            *spawns == *old(spawns),
            explosions@ == old(explosions)@ + spawns@.take(i as int).map_values(ignite()),
        decreases spawns.len() - i,
    {
        let request = spawns[i];
        explosions.push(Explosion::new(request.0));
        i += 1;
    }
    spawns.clear();
}

/// Advances the frame timer of every explosion by `delta` microseconds and moves each
/// explosion on by as many frames as its timer fired. No explosion is removed here, so one
/// that has just played its last frame can still take part in this tick's collisions.
pub fn explosion_animation_system(explosions: &mut Vec<Explosion>, delta: u32)
    ensures
        final(explosions)@ == old(explosions)@.map_values(animate(delta)),
{
    let mut moved: Vec<Explosion> = Vec::new();
    let mut i: usize = 0;
    while i < explosions.len()
        invariant
            i <= explosions.len(),
            *explosions == *old(explosions),
            moved@ == explosions@.take(i as int).map_values(animate(delta)),
        decreases explosions.len() - i,
    {
        let next = explosions[i].advance(delta);
        moved.push(next);
        i += 1;
    }
    *explosions = moved;
}

/// Removes the explosions that have played all their frames. The others stay, in order.
pub fn despawn_finished_explosions(explosions: &mut Vec<Explosion>)
    ensures
        final(explosions)@ == old(explosions)@.filter(still_burning()),
{
    let mut kept: Vec<Explosion> = Vec::new();
    let mut i: usize = 0;
    while i < explosions.len()
        invariant
            i <= explosions.len(),
            *explosions == *old(explosions),
            kept@ == explosions@.take(i as int).filter(still_burning()),
        decreases explosions.len() - i,
    {
        let explosion = explosions[i];
        proof {
            lemma_filter_take_next(explosions@, still_burning(), i as int);
        }
        if !explosion.finished() {
            kept.push(explosion);
        }
        i += 1;
    }
    proof {
        lemma_take_all(explosions@);
    }
    *explosions = kept;
}

/// The explosions left after a run of ticks, each tick advancing the frames and then
/// removing the explosions that are finished.
pub open spec fn burning_after_all(explosions: Seq<Explosion>, deltas: Seq<u32>) -> Seq<Explosion>
    decreases deltas.len(),
{
    if deltas.len() == 0 {
        explosions
    } else {
        burning_after_all(
            explosions.map_values(animate(deltas.first())).filter(still_burning()),
            deltas.drop_first(),
        )
    }
}

/// With no explosion on the field, no run of ticks creates one.
pub proof fn lemma_no_explosions_stay_none(deltas: Seq<u32>)
    ensures
        burning_after_all(Seq::<Explosion>::empty(), deltas) == Seq::<Explosion>::empty(),
    decreases deltas.len(),
{
    if deltas.len() > 0 {
        let none = Seq::<Explosion>::empty();
        lemma_filter_empty(still_burning());
        assert(none.map_values(animate(deltas.first())) =~= none);
        lemma_no_explosions_stay_none(deltas.drop_first());
    }
}

/// An explosion is gone as soon as the ticks since it started add up to the frame count
/// times the frame time. Until then it burns on, showing the frame whose index is the
/// number of whole frame times that have passed.
pub proof fn lemma_explosion_ends_after_frames(explosion: Explosion, deltas: Seq<u32>)
    requires
        explosion.timer.0 < EXPLOSION_FRAME_TIME,
        explosion.frame < EXPLOSION_FRAMES,
    ensures
        ({
            let time = explosion.frame * EXPLOSION_FRAME_TIME + explosion.timer.0 + total_time(
                deltas,
            );
            let after = burning_after_all(seq![explosion], deltas);
            &&& time >= EXPLOSION_FRAMES * EXPLOSION_FRAME_TIME ==> after == Seq::<
                Explosion,
            >::empty()
            &&& time < EXPLOSION_FRAMES * EXPLOSION_FRAME_TIME ==> after == seq![
                Explosion {
                    position: explosion.position,
                    timer: ExplosionTimer((time % (EXPLOSION_FRAME_TIME as int)) as u32),
                    frame: (time / (EXPLOSION_FRAME_TIME as int)) as u32,
                },
            ]
        }),
    decreases deltas.len(),
{
    if deltas.len() > 0 {
        let delta = deltas.first();
        let rest = deltas.drop_first();
        let next = explosion.advanced(delta);
        lemma_total_time_nonnegative(rest);
        assert(seq![explosion].map_values(animate(delta)) =~= seq![next]);
        lemma_filter_single(next, still_burning());
        if next.spec_finished() {
            lemma_no_explosions_stay_none(rest);
        } else {
            lemma_explosion_ends_after_frames(next, rest);
        }
    }
}

} // verus!
