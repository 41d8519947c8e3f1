//! Countdowns of the simulation, advanced by the engine's own timer.
//!
//! A countdown is held as plain microsecond counts. To advance one, the counts are handed
//! to a `bevy::time::Timer`, which is ticked once and read back.

use vstd::prelude::*;
use bevy::time::{Timer, TimerMode};
use std::time::Duration;

verus! {

/// Time shown by a single-shot countdown of length `duration` that showed `elapsed` and
/// is advanced by `delta`: it accumulates and stops at its length.
pub open spec fn once_elapsed(duration: int, elapsed: int, delta: int) -> int {
    if elapsed + delta >= duration {
        duration
    } else {
        elapsed + delta
    }
}

/// Whether a single-shot countdown has run out once it is advanced by `delta`.
pub open spec fn once_finished(duration: int, elapsed: int, delta: int) -> bool {
    elapsed + delta >= duration
}

/// Time shown by a repeating countdown of period `duration` that showed `elapsed` and is
/// advanced by `delta`: what is left after all the whole periods are taken out.
pub open spec fn repeating_elapsed(duration: int, elapsed: int, delta: int) -> int {
    (elapsed + delta) % duration
}

/// How many times a repeating countdown fires while it is advanced by `delta`.
pub open spec fn repeating_fired(duration: int, elapsed: int, delta: int) -> int {
    (elapsed + delta) / duration
}

/// Advances a single-shot `bevy::time::Timer` of length `duration` that shows `elapsed` by
/// `delta`, all in microseconds, with one call of `Timer::tick`. Returns the time the
/// timer shows afterwards and whether it reports `finished`.
///
/// Trusted: a timer in `TimerMode::Once` that is not yet marked finished adds `delta` to
/// its elapsed time, is finished exactly when the sum reaches its length, and then shows
/// its length.
#[verifier::external_body]
pub(crate) fn tick_once_timer(duration: u32, elapsed: u32, delta: u32) -> (after: (u32, bool))
    ensures
        after.0 == once_elapsed(duration as int, elapsed as int, delta as int),
        after.1 == once_finished(duration as int, elapsed as int, delta as int),
{
    let mut timer = Timer::new(Duration::from_micros(duration as u64), TimerMode::Once);
    timer.set_elapsed(Duration::from_micros(elapsed as u64));
    timer.tick(Duration::from_micros(delta as u64));
    (timer.elapsed().as_micros() as u32, timer.finished())
}

/// Advances a repeating `bevy::time::Timer` of period `duration` that shows `elapsed` by
/// `delta`, all in microseconds, with one call of `Timer::tick`. Returns the time the
/// timer shows afterwards and its `times_finished_this_tick`.
///
/// Trusted: a timer in `TimerMode::Repeating` adds `delta` to its elapsed time, counts the
/// whole periods in the sum and keeps the remainder. The period must be positive, since
/// the timer divides by it, and the count must fit the `u32` in which the timer holds it.
#[verifier::external_body]
pub(crate) fn tick_repeating_timer(duration: u32, elapsed: u32, delta: u32) -> (after: (u32, u32))
    requires
        duration > 0,
        (elapsed + delta) / (duration as int) <= u32::MAX,
    ensures
        after.0 == repeating_elapsed(duration as int, elapsed as int, delta as int),
        after.1 == repeating_fired(duration as int, elapsed as int, delta as int),
{
    let mut timer = Timer::new(Duration::from_micros(duration as u64), TimerMode::Repeating);
    timer.set_elapsed(Duration::from_micros(elapsed as u64));
    timer.tick(Duration::from_micros(delta as u64));
    (timer.elapsed().as_micros() as u32, timer.times_finished_this_tick())
}

/// Total length of a run of ticks, in microseconds.
pub open spec fn total_time(deltas: Seq<u32>) -> int
    decreases deltas.len(),
{
    if deltas.len() == 0 {
        0
    } else {
        deltas.first() + total_time(deltas.drop_first())
    }
}

/// A run of ticks never lasts a negative time.
pub proof fn lemma_total_time_nonnegative(deltas: Seq<u32>)
    ensures
        total_time(deltas) >= 0,
    decreases deltas.len(),
{
    if deltas.len() > 0 {
        lemma_total_time_nonnegative(deltas.drop_first());
    }
}

} // verus!
