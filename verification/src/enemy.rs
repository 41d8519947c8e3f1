//! Enemies: they steer straight at the player and die in explosions.

use vstd::prelude::*;
use crate::components::{clamp_coord, to_coord, Position, Size, PLAYER_HEIGHT, PLAYER_WIDTH, TILE_SIZE};
use crate::explosion::{any_reaches, hit_by_explosion, Explosion};
use crate::math::{
    floor_sqrt, integer_sqrt, lemma_floor_sqrt_of_square, lemma_scaled_by_own_size, scaled,
};
use crate::seq_facts::{lemma_filter_take_next, lemma_take_all};
use crate::state::{clamp_score, MainState, ENEMY_REWARD};

verus! {

/// Speed of the enemies placed at the start, in tenths of a tile per second.
pub const ENEMY_SPEED: u32 = 8;

/// Divisor that turns `speed * TILE_SIZE * delta` into length units: speeds are in tenths
/// of a tile per second and times in microseconds.
pub const TRAVEL_SCALE: u64 = 10_000_000;

/// An enemy: how fast it moves, in tenths of a tile per second, and where it is.
#[derive(Clone, Copy, Debug, PartialEq, Eq, Structural)]
pub struct Enemy {
    pub speed: u32,
    pub position: Position,
}

/// Distance covered in `delta` microseconds at `speed` tenths of a tile per second, in
/// length units, rounded down.
pub open spec fn travel(speed: u32, delta: u32) -> int {
    (speed * TILE_SIZE * delta) / (TRAVEL_SCALE as int)
}

/// Computes the distance covered in `delta` microseconds at the given speed.
pub fn travel_distance(speed: u32, delta: u32) -> (distance: u64)
    ensures
        distance == travel(speed, delta),
        distance <= 0x0200_0000_0000_0000,
{
    assert(0 <= speed * TILE_SIZE <= 274_877_906_880_000) by (nonlinear_arith)
        requires
            0 <= speed <= 0xffff_ffff,
            TILE_SIZE == 64_000,
    ;
    let per_second: u64 = (speed as u64) * (TILE_SIZE as u64);
    assert(per_second * delta <= 274_877_906_880_000 * 0xffff_ffff) by (nonlinear_arith)
        requires
            0 <= per_second <= 274_877_906_880_000,
            0 <= delta <= 0xffff_ffff,
    ;
    let product: u128 = (per_second as u128) * (delta as u128);
    let distance: u128 = product / (TRAVEL_SCALE as u128);
    assert(distance == product as int / 10_000_000);
    distance as u64
}

impl Enemy {
    /// The enemy after steering towards `target` for `delta` microseconds. It moves along
    /// the straight line to the target by the distance its speed allows, each axis taking
    /// its share of that distance, rounded towards zero. The length of the line is taken
    /// as a whole number of length units; an enemy that stands on the target stays there.
    pub open spec fn pursuing(self, target: Position, delta: u32) -> Enemy {
        let dx = target.x - self.position.x;
        let dy = target.y - self.position.y;
        let length = floor_sqrt(dx * dx + dy * dy);
        if length == 0 {
            self
        } else {
            let step = travel(self.speed, delta);
            Enemy {
                speed: self.speed,
                position: Position {
                    x: clamp_coord(self.position.x + scaled(dx, step, length)) as i32,
                    y: clamp_coord(self.position.y + scaled(dy, step, length)) as i32,
                },
            }
        }
    }

    /// Whether some explosion's area overlaps the enemy's body.
    pub open spec fn caught_by(self, explosions: Seq<Explosion>) -> bool {
        any_reaches(explosions, self.position, Size { width: PLAYER_WIDTH, height: PLAYER_HEIGHT })
    }

    /// Steers the enemy towards `target` for `delta` microseconds.
    pub fn pursue(&self, target: Position, delta: u32) -> (next: Enemy)
        ensures
            next == self.pursuing(target, delta),
    {
        let dx: i64 = target.x as i64 - self.position.x as i64;
        let dy: i64 = target.y as i64 - self.position.y as i64;
        let across: u128 = if dx >= 0 { dx as u128 } else { (-dx) as u128 };
        let along: u128 = if dy >= 0 { dy as u128 } else { (-dy) as u128 };
        assert(across * across <= 0xffff_ffff * 0xffff_ffff) by (nonlinear_arith)
            requires
                0 <= across <= 0xffff_ffff,
        ;
        assert(along * along <= 0xffff_ffff * 0xffff_ffff) by (nonlinear_arith)
            requires
                0 <= along <= 0xffff_ffff,
        ;
        assert(across * across == dx * dx) by (nonlinear_arith)
            requires
                across == dx || across == -dx,
        ;
        assert(along * along == dy * dy) by (nonlinear_arith)
            requires
                along == dy || along == -dy,
        ;
        let length: u128 = integer_sqrt(across * across + along * along);
        if length == 0 {
            return *self;
        }
        let step: u128 = travel_distance(self.speed, delta) as u128;
        assert(across * step <= 0xffff_ffff * 0x0200_0000_0000_0000) by (nonlinear_arith)
            requires
                0 <= across <= 0xffff_ffff,
                0 <= step <= 0x0200_0000_0000_0000,
        ;
        assert(along * step <= 0xffff_ffff * 0x0200_0000_0000_0000) by (nonlinear_arith)
            requires
                0 <= along <= 0xffff_ffff,
                0 <= step <= 0x0200_0000_0000_0000,
        ;
        let share_x: u128 = across * step / length;
        let share_y: u128 = along * step / length;
        let move_x: i128 = if dx >= 0 { share_x as i128 } else { -(share_x as i128) };
        let move_y: i128 = if dy >= 0 { share_y as i128 } else { -(share_y as i128) };
        Enemy {
            speed: self.speed,
            position: Position {
                x: to_coord(self.position.x as i128 + move_x),
                y: to_coord(self.position.y as i128 + move_y),
            },
        }
    }
}

/// Steers an enemy towards `target` for `delta` microseconds.
pub open spec fn chase(target: Position, delta: u32) -> spec_fn(Enemy) -> Enemy {
    |enemy: Enemy| enemy.pursuing(target, delta)
}

/// Selects the enemies that the explosions destroy.
pub open spec fn caught(explosions: Seq<Explosion>) -> spec_fn(Enemy) -> bool {
    |enemy: Enemy| enemy.caught_by(explosions)
}

/// Selects the enemies that the explosions leave alive.
pub open spec fn escapes(explosions: Seq<Explosion>) -> spec_fn(Enemy) -> bool {
    |enemy: Enemy| !enemy.caught_by(explosions)
}

/// The enemies that the session starts with.
pub open spec fn starting_enemies() -> Seq<Enemy> {
    seq![
        Enemy { speed: ENEMY_SPEED, position: Position { x: 100_000, y: 100_000 } },
        Enemy { speed: ENEMY_SPEED, position: Position { x: 200_000, y: 200_000 } },
        Enemy { speed: ENEMY_SPEED, position: Position { x: 300_000, y: 300_000 } },
        Enemy { speed: ENEMY_SPEED, position: Position { x: 100_000, y: (-900_000i32) } },
    ]
}

/// Places the enemies that the session starts with.
pub fn spawn_enemy_system() -> (enemies: Vec<Enemy>)
    ensures
        enemies@ == starting_enemies(),
{
    let mut enemies: Vec<Enemy> = Vec::new();
    enemies.push(Enemy { speed: ENEMY_SPEED, position: Position { x: 100_000, y: 100_000 } });
    enemies.push(Enemy { speed: ENEMY_SPEED, position: Position { x: 200_000, y: 200_000 } });
    enemies.push(Enemy { speed: ENEMY_SPEED, position: Position { x: 300_000, y: 300_000 } });
    enemies.push(Enemy { speed: ENEMY_SPEED, position: Position { x: 100_000, y: -900_000 } });
    enemies
}

/// Steers every enemy towards the player's position for `delta` microseconds. Enemies
/// take no notice of walls or of each other.
pub fn enemy_movement_system(enemies: &mut Vec<Enemy>, player_position: Position, delta: u32)
    ensures
        final(enemies)@ == old(enemies)@.map_values(chase(player_position, delta)),
{
    let mut moved: Vec<Enemy> = Vec::new();
    let mut i: usize = 0;
    while i < enemies.len()
        invariant
            i <= enemies.len(),
            *enemies == *old(enemies),
            moved@ == enemies@.take(i as int).map_values(chase(player_position, delta)),
        decreases enemies.len() - i,
    {
        let next = enemies[i].pursue(player_position, delta);
        moved.push(next);
        i += 1;
    }
    *enemies = moved;
}

/// Resolves the explosions against the enemies. Every enemy whose body an explosion
/// reaches is removed, once, however many explosions reach it, and the score rises by
/// `ENEMY_REWARD` for each.
pub fn check_for_explosion_collision(
    enemies: &mut Vec<Enemy>,
    explosions: &Vec<Explosion>,
    main_state: &mut MainState,
)
    ensures
        final(enemies)@ == old(enemies)@.filter(escapes(explosions@)),
        final(main_state).score == clamp_score(
            old(main_state).score + old(enemies)@.filter(caught(explosions@)).len() * ENEMY_REWARD,
        ),
{
    let mut kept: Vec<Enemy> = Vec::new();
    let mut hits: usize = 0;
    let mut i: usize = 0;
    while i < enemies.len()
        invariant
            i <= enemies.len(),
            hits <= i,
            *enemies == *old(enemies),
            kept@ == enemies@.take(i as int).filter(escapes(explosions@)),
            hits == enemies@.take(i as int).filter(caught(explosions@)).len(),
        decreases enemies.len() - i,
    {
        let enemy = enemies[i];
        proof {
            lemma_filter_take_next(enemies@, caught(explosions@), i as int);
            lemma_filter_take_next(enemies@, escapes(explosions@), i as int);
        }
        if hit_by_explosion(
            explosions,
            enemy.position,
            Size { width: PLAYER_WIDTH, height: PLAYER_HEIGHT },
        ) {
            hits += 1;
        } else {
            kept.push(enemy);
        }
        i += 1;
    }
    proof {
        lemma_take_all(enemies@);
    }
    *enemies = kept;
    main_state.award(hits, ENEMY_REWARD);
}

/// An enemy level with the player closes in along the x axis by exactly the distance that
/// its speed allows in the time of the tick, and stays level.
pub proof fn lemma_pursuit_along_axis(enemy: Enemy, target: Position, delta: u32)
    requires
        enemy.position.y == target.y,
        enemy.position.x != target.x,
    ensures
        enemy.pursuing(target, delta).speed == enemy.speed,
        enemy.pursuing(target, delta).position.y == enemy.position.y,
        target.x < enemy.position.x ==> enemy.pursuing(target, delta).position.x == clamp_coord(
            enemy.position.x - travel(enemy.speed, delta),
        ),
        target.x > enemy.position.x ==> enemy.pursuing(target, delta).position.x == clamp_coord(
            enemy.position.x + travel(enemy.speed, delta),
        ),
{
    let dx = target.x - enemy.position.x;
    let dy = target.y - enemy.position.y;
    let size = if dx > 0 { dx } else { -dx };
    let step = travel(enemy.speed, delta);
    assert(dx * dx + dy * dy == size * size) by (nonlinear_arith)
        requires
            dy == 0,
            size == dx || size == -dx,
    ;
    lemma_floor_sqrt_of_square(size);
    lemma_scaled_by_own_size(dx, step);
}

} // verus!
