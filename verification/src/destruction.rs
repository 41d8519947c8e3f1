//! What explosions do to breakable walls: the wall goes, the score rises, and now and
//! then a bomb pickup is left where the wall stood.

use vstd::prelude::*;
use crate::components::{Size, TILE_SIZE};
use crate::enemy::{caught, Enemy};
use crate::explosion::{any_reaches, hit_by_explosion, Explosion};
use crate::pickup::{draw_rolls, pickup_for_roll, pickup_left, BombPickup, PICKUP_ODDS};
use crate::seq_facts::{
    lemma_filter_keeps_all, lemma_filter_keeps_none, lemma_filter_members, lemma_filter_splits,
    lemma_filter_take_next, lemma_take_all,
};
use crate::state::{clamp_score, MainState, ENEMY_REWARD, WALL_REWARD};
use crate::tilemap::Tile;

verus! {

/// Whether a tile is destroyed by the explosions burning in this tick: it is breakable and
/// some explosion's area overlaps its square.
pub open spec fn wall_destroyed(tile: Tile, explosions: Seq<Explosion>) -> bool {
    tile.breakable && any_reaches(
        explosions,
        tile.position,
        Size { width: TILE_SIZE, height: TILE_SIZE },
    )
}

/// Selects the tiles that the explosions destroy.
pub open spec fn blown_up(explosions: Seq<Explosion>) -> spec_fn(Tile) -> bool {
    |tile: Tile| wall_destroyed(tile, explosions)
}

/// Selects the tiles that the explosions leave standing.
pub open spec fn stands(explosions: Seq<Explosion>) -> spec_fn(Tile) -> bool {
    |tile: Tile| !wall_destroyed(tile, explosions)
}

/// The pickups left by the destroyed walls, in the walls' order. Wall `k` is decided by
/// `rolls[k]`; a wall for which no number was drawn leaves nothing.
pub open spec fn spawned_pickups(destroyed: Seq<Tile>, rolls: Seq<u32>) -> Seq<BombPickup>
    decreases destroyed.len(),
{
    if destroyed.len() == 0 {
        Seq::empty()
    } else {
        let k = destroyed.len() - 1;
        let earlier = spawned_pickups(destroyed.drop_last(), rolls);
        if k < rolls.len() && pickup_left(destroyed[k].position, rolls[k]) is Some {
            earlier.push(pickup_left(destroyed[k].position, rolls[k])->Some_0)
        } else {
            earlier
        }
    }
}

/// Tells whether the explosions destroy a tile.
pub fn is_wall_destroyed(tile: &Tile, explosions: &Vec<Explosion>) -> (gone: bool)
    ensures
        gone == wall_destroyed(*tile, explosions@),
{
    tile.breakable && hit_by_explosion(explosions, tile.position, Size::splat(TILE_SIZE))
}

/// Counts the tiles that the explosions destroy.
pub fn count_destroyed_walls(walls: &Vec<Tile>, explosions: &Vec<Explosion>) -> (count: usize)
    ensures
        count == walls@.filter(blown_up(explosions@)).len(),
{
    let mut count: usize = 0;
    let mut i: usize = 0;
    while i < walls.len()
        invariant
            i <= walls.len(),
            count <= i,
            count == walls@.take(i as int).filter(blown_up(explosions@)).len(),
        decreases walls.len() - i,
    {
        proof {
            lemma_filter_take_next(walls@, blown_up(explosions@), i as int);
        }
        if is_wall_destroyed(&walls[i], explosions) {
            count += 1;
        }
        i += 1;
    }
    proof {
        lemma_take_all(walls@);
    }
    count
}

/// Resolves the explosions against the walls, with the numbers that decide the pickups
/// given by the caller. Every breakable wall that an explosion reaches is removed, once,
/// however many explosions reach it; the score rises by `WALL_REWARD` for each; and the
/// destroyed walls leave their pickups, decided in order by `rolls`.
pub fn resolve_wall_destruction(
    walls: &mut Vec<Tile>,
    explosions: &Vec<Explosion>,
    main_state: &mut MainState,
    pickups: &mut Vec<BombPickup>,
    rolls: &Vec<u32>,
)
    ensures
        final(walls)@ == old(walls)@.filter(stands(explosions@)),
        final(main_state).score == clamp_score(
            old(main_state).score + old(walls)@.filter(blown_up(explosions@)).len() * WALL_REWARD,
        ),
        final(pickups)@ == old(pickups)@ + spawned_pickups(
            old(walls)@.filter(blown_up(explosions@)),
            rolls@,
        ),
{
    let mut kept: Vec<Tile> = Vec::new();
    let mut hits: usize = 0;
    let mut i: usize = 0;
    while i < walls.len()
        invariant
            i <= walls.len(),
            hits <= i,
            *walls == *old(walls),
            kept@ == walls@.take(i as int).filter(stands(explosions@)),
            hits == walls@.take(i as int).filter(blown_up(explosions@)).len(),
            pickups@ == old(pickups)@ + spawned_pickups(
                walls@.take(i as int).filter(blown_up(explosions@)),
                rolls@,
            ),
        decreases walls.len() - i,
    {
        let wall = walls[i];
        proof {
            lemma_filter_take_next(walls@, blown_up(explosions@), i as int);
            lemma_filter_take_next(walls@, stands(explosions@), i as int);
        }
        if is_wall_destroyed(&wall, explosions) {
            let ghost before = walls@.take(i as int).filter(blown_up(explosions@));
            assert(before.push(wall).drop_last() =~= before);
            if hits < rolls.len() {
                if let Some(pickup) = pickup_for_roll(wall.position, rolls[hits]) {
                    pickups.push(pickup);
                }
            }
            hits += 1;
        } else {
            kept.push(wall);
        }
        i += 1;
    }
    proof {
        lemma_take_all(walls@);
    }
    *walls = kept;
    main_state.award(hits, WALL_REWARD);
}

/// Resolves the explosions against the walls, drawing a number for each destroyed wall to
/// decide whether it leaves a pickup. What happens to the walls and the score does not
/// depend on the numbers drawn; the pickups are those that some draw of one number below
/// `PICKUP_ODDS` per destroyed wall gives.
pub fn check_for_explosion_collision_system(
    walls: &mut Vec<Tile>,
    explosions: &Vec<Explosion>,
    main_state: &mut MainState,
    pickups: &mut Vec<BombPickup>,
)
    ensures
        final(walls)@ == old(walls)@.filter(stands(explosions@)),
        final(main_state).score == clamp_score(
            old(main_state).score + old(walls)@.filter(blown_up(explosions@)).len() * WALL_REWARD,
        ),
        exists|rolls: Seq<u32>|
            {
                &&& rolls.len() == old(walls)@.filter(blown_up(explosions@)).len()
                &&& forall|k: int| 0 <= k < rolls.len() ==> rolls[k] < PICKUP_ODDS
                &&& final(pickups)@ == old(pickups)@ + #[trigger] spawned_pickups(
                    old(walls)@.filter(blown_up(explosions@)),
                    rolls,
                )
            },
{
    let count: usize = count_destroyed_walls(walls, explosions);
    let rolls: Vec<u32> = draw_rolls(count);
    resolve_wall_destruction(walls, explosions, main_state, pickups, &rolls);
}

/// The walls left standing after a run of ticks, given the explosions that burn in each.
pub open spec fn standing_after_all(walls: Seq<Tile>, blasts: Seq<Seq<Explosion>>) -> Seq<Tile>
    decreases blasts.len(),
{
    if blasts.len() == 0 {
        walls
    } else {
        standing_after_all(walls.filter(stands(blasts.first())), blasts.drop_first())
    }
}

/// Every wall is either destroyed or left standing, so the score rises by `WALL_REWARD`
/// for each wall that disappears.
pub proof fn lemma_walls_destroyed_or_standing(walls: Seq<Tile>, explosions: Seq<Explosion>)
    ensures
        walls.filter(blown_up(explosions)).len() + walls.filter(stands(explosions)).len()
            == walls.len(),
{
    lemma_filter_splits(walls, blown_up(explosions), stands(explosions));
}

/// Resolving the same explosions a second time changes nothing: none of the walls left
/// standing is destroyed, so no wall is removed, the score does not rise and no pickup
/// appears.
pub proof fn lemma_destruction_idempotent(
    walls: Seq<Tile>,
    explosions: Seq<Explosion>,
    rolls: Seq<u32>,
)
    ensures
        ({
            let left = walls.filter(stands(explosions));
            &&& left.filter(stands(explosions)) == left
            &&& left.filter(blown_up(explosions)) == Seq::<Tile>::empty()
            &&& spawned_pickups(left.filter(blown_up(explosions)), rolls) == Seq::<
                BombPickup,
            >::empty()
        }),
{
    let left = walls.filter(stands(explosions));
    lemma_filter_keeps_all(left, stands(explosions));
    lemma_filter_keeps_none(left, blown_up(explosions));
}

/// A wall that is not on the field is not brought back by any run of ticks.
pub proof fn lemma_absent_wall_stays_absent(walls: Seq<Tile>, tile: Tile, blasts: Seq<Seq<Explosion>>)
    requires
        !walls.contains(tile),
    ensures
        !standing_after_all(walls, blasts).contains(tile),
    decreases blasts.len(),
{
    if blasts.len() > 0 {
        let left = walls.filter(stands(blasts.first()));
        if left.contains(tile) {
            lemma_filter_members(walls, stands(blasts.first()), tile);
        }
        lemma_absent_wall_stays_absent(left, tile, blasts.drop_first());
    }
}

/// A wall destroyed in one tick is gone for good: it is not among the walls left by that
/// tick, and so it is neither standing nor destroyed again in any later tick, whatever
/// explosions burn then.
pub proof fn lemma_destroyed_wall_stays_gone(
    walls: Seq<Tile>,
    explosions: Seq<Explosion>,
    tile: Tile,
    later: Seq<Seq<Explosion>>,
    next: Seq<Explosion>,
)
    requires
        wall_destroyed(tile, explosions),
    ensures
        ({
            let left = standing_after_all(walls.filter(stands(explosions)), later);
            &&& !left.contains(tile)
            &&& !left.filter(blown_up(next)).contains(tile)
            &&& !left.filter(stands(next)).contains(tile)
        }),
{
    let first = walls.filter(stands(explosions));
    lemma_absent_wall_stays_absent(first, tile, later);
    let left = standing_after_all(first, later);
    if left.filter(blown_up(next)).contains(tile) {
        lemma_filter_members(left, blown_up(next), tile);
    }
    if left.filter(stands(next)).contains(tile) {
        lemma_filter_members(left, stands(next), tile);
    }
}

/// The rewards of one tick add up: resolving the walls and then the enemies, or the
/// enemies and then the walls, brings the score to the old score plus `WALL_REWARD` for
/// each destroyed wall plus `ENEMY_REWARD` for each destroyed enemy, limited to what the
/// counter holds.
pub proof fn lemma_rewards_add_up(
    score: usize,
    walls: Seq<Tile>,
    enemies: Seq<Enemy>,
    explosions: Seq<Explosion>,
)
    ensures
        ({
            let for_walls = walls.filter(blown_up(explosions)).len() * WALL_REWARD;
            let for_enemies = enemies.filter(caught(explosions)).len() * ENEMY_REWARD;
            &&& clamp_score(clamp_score(score + for_walls) + for_enemies) == clamp_score(
                score + for_walls + for_enemies,
            )
            &&& clamp_score(clamp_score(score + for_enemies) + for_walls) == clamp_score(
                score + for_walls + for_enemies,
            )
            &&& score + for_walls + for_enemies <= usize::MAX ==> clamp_score(
                score + for_walls + for_enemies,
            ) == score + 10 * walls.filter(blown_up(explosions)).len() + 100 * enemies.filter(
                caught(explosions),
            ).len()
        }),
{
}

} // verus!
