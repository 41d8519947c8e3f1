//! State shared by the whole session.

use vstd::prelude::*;

verus! {

/// Points for destroying a breakable wall.
pub const WALL_REWARD: usize = 10;

/// Points for destroying an enemy.
pub const ENEMY_REWARD: usize = 100;

/// The session's score, changed by every pass that destroys something.
#[derive(Clone, Copy, Debug, PartialEq, Eq, Structural)]
pub struct MainState {
    pub score: usize,
}

/// The screen that the session shows.
#[derive(Clone, Copy, Debug, PartialEq, Eq, Hash, Structural)]
pub enum GameState {
    StartMenu,
    Game,
    GameOver,
}

/// The score nearest to `points` that the counter can hold.
pub open spec fn clamp_score(points: int) -> int {
    if points > usize::MAX {
        usize::MAX as int
    } else {
        points
    }
}

impl MainState {
    /// A session in which nothing has been scored yet.
    pub fn new() -> (state: MainState)
        ensures
            state.score == 0,
    {
        MainState { score: 0 }
    }

    /// Adds `reward` points for each of `count` destroyed entities. The score stops at the
    /// largest value the counter can hold.
    pub fn award(&mut self, count: usize, reward: usize)
        ensures
            final(self).score == clamp_score(old(self).score + count * reward),
    {
        let gained: Option<usize> = count.checked_mul(reward);
        let total: Option<usize> = match gained {
            Some(points) => self.score.checked_add(points),
            None => None,
        };
        self.score = match total {
            Some(score) => score,
            None => usize::MAX,
        };
    }
}

} // verus!
