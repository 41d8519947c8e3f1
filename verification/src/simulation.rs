//! The whole session and the order in which one tick runs its passes.

use vstd::prelude::*;
use crate::bomb::{armed_after, explode_bomb_system, explosions_due, Bomb};
use crate::destruction::{
    blown_up, check_for_explosion_collision_system, resolve_wall_destruction, spawned_pickups,
    stands,
};
use crate::enemy::{
    caught, chase, check_for_explosion_collision, enemy_movement_system, escapes, Enemy,
};
use crate::explosion::{
    animate, despawn_finished_explosions, explosion_animation_system, explosion_to_spawn_system,
    ignite, still_burning, Explosion,
};
use crate::pickup::{BombPickup, PICKUP_ODDS};
use crate::player::{
    clamp_bombs, clamp_health, collected, enemy_collision_check, intent, left_lying,
    pickup_collision_check, place_bomb_system, placing_bomb, player_movement_system,
    resolved_position, touching, Controls, Player, CONTACT_DAMAGE,
};
use crate::state::{clamp_score, MainState, ENEMY_REWARD, WALL_REWARD};
use crate::tilemap::Tile;

verus! {

/// Everything that lives during a session. There is always exactly one player.
pub struct Simulation {
    pub player: Player,
    pub enemies: Vec<Enemy>,
    pub bombs: Vec<Bomb>,
    pub explosions: Vec<Explosion>,
    pub walls: Vec<Tile>,
    pub pickups: Vec<BombPickup>,
    pub main_state: MainState,
}

/// What the outside world hands to one tick: the keys held down, whether the key that
/// lays a bomb was pressed since the last tick, and the time since the last tick in
/// microseconds.
#[derive(Clone, Copy, Debug, PartialEq, Eq, Structural)]
pub struct TickInput {
    pub controls: Controls,
    pub place_bomb: bool,
    pub delta: u32,
}

/// A session as a mathematical value.
pub struct World {
    pub player: Player,
    pub enemies: Seq<Enemy>,
    pub bombs: Seq<Bomb>,
    pub explosions: Seq<Explosion>,
    pub walls: Seq<Tile>,
    pub pickups: Seq<BombPickup>,
    pub main_state: MainState,
}

impl View for Simulation {
    type V = World;

    open spec fn view(&self) -> World {
        World {
            player: self.player,
            enemies: self.enemies@,
            bombs: self.bombs@,
            explosions: self.explosions@,
            walls: self.walls@,
            pickups: self.pickups@,
            main_state: self.main_state,
        }
    }
}

impl World {
    /// The player after walking and, if asked and able, laying a bomb.
    pub open spec fn acting_player(self, input: TickInput) -> Player {
        let walked = Player {
            position: resolved_position(
                self.player.position,
                intent(self.player.speed, input.controls, input.delta),
                self.walls,
            ),
            ..self.player
        };
        if placing_bomb(walked, input.place_bomb) {
            Player { num_bombs: (walked.num_bombs - 1) as usize, ..walked }
        } else {
            walked
        }
    }

    /// The bombs on the field once the player has acted: a bomb laid in this tick lies
    /// where the player stands after walking.
    pub open spec fn bombs_in_play(self, input: TickInput) -> Seq<Bomb> {
        if placing_bomb(self.player, input.place_bomb) {
            self.bombs.push(Bomb { position: self.acting_player(input).position, elapsed: 0 })
        } else {
            self.bombs
        }
    }

    /// The first half of a tick, in which everything moves and ages: the player walks and
    /// lays a bomb, the enemies steer towards the player, the fuses burn, the explosions
    /// that were already burning play on, and the bombs that went off become new
    /// explosions showing their first frame.
    pub open spec fn advanced(self, input: TickInput) -> World {
        let player = self.acting_player(input);
        let bombs = self.bombs_in_play(input);
        World {
            player,
            enemies: self.enemies.map_values(chase(player.position, input.delta)),
            bombs: armed_after(bombs, input.delta),
            explosions: self.explosions.map_values(animate(input.delta)) + explosions_due(
                bombs,
                input.delta,
            ).map_values(ignite()),
            walls: self.walls,
            pickups: self.pickups,
            main_state: self.main_state,
        }
    }

    /// The walls that this tick's explosions destroy.
    pub open spec fn walls_destroyed(self) -> Seq<Tile> {
        self.walls.filter(blown_up(self.explosions))
    }

    /// The second half of a tick, in which collisions are settled. The explosions, those
    /// showing their last frame included, destroy walls and enemies; the enemies that are
    /// left hurt the player; the player collects pickups; and only then the finished
    /// explosions are removed. `rolls` holds the number drawn for each destroyed wall.
    pub open spec fn resolved(self, rolls: Seq<u32>) -> World {
        let enemies = self.enemies.filter(escapes(self.explosions));
        let pickups = self.pickups + spawned_pickups(self.walls_destroyed(), rolls);
        World {
            player: Player {
                health: clamp_health(
                    self.player.health - CONTACT_DAMAGE * enemies.filter(
                        touching(self.player.position),
                    ).len(),
                ) as i64,
                num_bombs: clamp_bombs(
                    self.player.num_bombs + pickups.filter(collected(self.player.position)).len(),
                ) as usize,
                ..self.player
            },
            enemies,
            bombs: self.bombs,
            explosions: self.explosions.filter(still_burning()),
            walls: self.walls.filter(stands(self.explosions)),
            pickups: pickups.filter(left_lying(self.player.position)),
            main_state: MainState {
                score: clamp_score(
                    clamp_score(self.main_state.score + self.walls_destroyed().len() * WALL_REWARD)
                        + self.enemies.filter(caught(self.explosions)).len() * ENEMY_REWARD,
                ) as usize,
            },
        }
    }

    /// One whole tick.
    pub open spec fn stepped(self, input: TickInput, rolls: Seq<u32>) -> World {
        self.advanced(input).resolved(rolls)
    }
}

impl Simulation {
    /// Runs the first half of a tick: everything moves and ages.
    pub fn advance(&mut self, input: TickInput)
        ensures
            final(self)@ == old(self)@.advanced(input),
    {
        player_movement_system(&mut self.player, &self.walls, input.controls, input.delta);
        place_bomb_system(&mut self.player, &mut self.bombs, input.place_bomb);
        enemy_movement_system(&mut self.enemies, self.player.position, input.delta);
        let mut spawns = explode_bomb_system(&mut self.bombs, input.delta);
        explosion_animation_system(&mut self.explosions, input.delta);
        explosion_to_spawn_system(&mut spawns, &mut self.explosions);
    }

    /// Runs the second half of a tick with the numbers that decide the pickups given by
    /// the caller: collisions are settled and finished explosions removed.
    pub fn resolve_with_rolls(&mut self, rolls: &Vec<u32>)
        ensures
            final(self)@ == old(self)@.resolved(rolls@),
    {
        resolve_wall_destruction(
            &mut self.walls,
            &self.explosions,
            &mut self.main_state,
            &mut self.pickups,
            rolls,
        );
        check_for_explosion_collision(&mut self.enemies, &self.explosions, &mut self.main_state);
        enemy_collision_check(&mut self.player, &self.enemies);
        pickup_collision_check(&mut self.player, &mut self.pickups);
        despawn_finished_explosions(&mut self.explosions);
    }

    /// Runs the second half of a tick, drawing a number for each destroyed wall.
    pub fn resolve(&mut self)
        ensures
            exists|rolls: Seq<u32>|
                {
                    &&& rolls.len() == old(self)@.walls_destroyed().len()
                    &&& forall|k: int| 0 <= k < rolls.len() ==> rolls[k] < PICKUP_ODDS
                    &&& final(self)@ == #[trigger] old(self)@.resolved(rolls)
                },
    {
        check_for_explosion_collision_system(
            &mut self.walls,
            &self.explosions,
            &mut self.main_state,
            &mut self.pickups,
        );
        let ghost rolls = choose|rolls: Seq<u32>|
            {
                &&& rolls.len() == old(self)@.walls_destroyed().len()
                &&& forall|k: int| 0 <= k < rolls.len() ==> rolls[k] < PICKUP_ODDS
                &&& self.pickups@ == old(self).pickups@ + #[trigger] spawned_pickups(
                    old(self)@.walls_destroyed(),
                    rolls,
                )
            };
        check_for_explosion_collision(&mut self.enemies, &self.explosions, &mut self.main_state);
        enemy_collision_check(&mut self.player, &self.enemies);
        pickup_collision_check(&mut self.player, &mut self.pickups);
        despawn_finished_explosions(&mut self.explosions);
        assert(self@ == old(self)@.resolved(rolls));
    }

    /// Runs one tick with the numbers that decide the pickups given by the caller.
    pub fn tick_with_rolls(&mut self, input: TickInput, rolls: &Vec<u32>)
        ensures
            final(self)@ == old(self)@.stepped(input, rolls@),
    {
        self.advance(input);
        self.resolve_with_rolls(rolls);
    }

    /// Runs one tick, drawing a number for each destroyed wall.
    pub fn tick(&mut self, input: TickInput)
        ensures
            exists|rolls: Seq<u32>|
                {
                    &&& rolls.len() == old(self)@.advanced(input).walls_destroyed().len()
                    &&& forall|k: int| 0 <= k < rolls.len() ==> rolls[k] < PICKUP_ODDS
                    &&& final(self)@ == #[trigger] old(self)@.stepped(input, rolls)
                },
    {
        self.advance(input);
        let ghost middle = self@;
        self.resolve();
        let ghost rolls = choose|rolls: Seq<u32>|
            {
                &&& rolls.len() == middle.walls_destroyed().len()
                &&& forall|k: int| 0 <= k < rolls.len() ==> rolls[k] < PICKUP_ODDS
                &&& self@ == #[trigger] middle.resolved(rolls)
            };
        assert(self@ == old(self)@.stepped(input, rolls));
    }
}

} // verus!
