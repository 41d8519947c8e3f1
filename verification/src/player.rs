//! The player: walking between the walls, laying bombs, getting hurt and picking up bombs.

use vstd::prelude::*;
use crate::bomb::Bomb;
use crate::collision::{collide, overlap};
use crate::components::{clamp_coord, offset_coord, Position, Size, Velocity, TILE_SIZE};
use crate::enemy::{travel, travel_distance, Enemy};
use crate::pickup::BombPickup;
use crate::seq_facts::{lemma_filter_take_next, lemma_take_all};
use crate::tilemap::Tile;

verus! {

/// Bombs that the player starts with.
pub const STARTING_BOMB_COUNT: usize = 5;

/// Health that the player starts with.
pub const STARTING_HEALTH: i64 = 100;

/// Speed of the player, in tenths of a tile per second.
pub const PLAYER_SPEED: u32 = 60;

/// Width of the part of the player that walls and pickups touch: seven tenths of the
/// sprite's width.
pub const HITBOX_WIDTH: i32 = 44_800;

/// Height of the part of the player that walls and pickups touch: seven tenths of the
/// sprite's height.
pub const HITBOX_HEIGHT: i32 = 89_600;

/// Edge of the square in which the player and an enemy hurt each other.
pub const CONTACT_SIZE: i32 = 20_000;

/// Health lost in each tick for each enemy in contact.
pub const CONTACT_DAMAGE: i64 = 5;

/// The player: speed in tenths of a tile per second, bombs in stock, position and health.
/// Health may fall below zero.
#[derive(Clone, Copy, Debug, PartialEq, Eq, Structural)]
pub struct Player {
    pub speed: u32,
    pub num_bombs: usize,
    pub position: Position,
    pub health: i64,
}

/// The keys held down during a tick.
#[derive(Clone, Copy, Debug, PartialEq, Eq, Structural)]
pub struct Controls {
    pub up: bool,
    pub down: bool,
    pub left: bool,
    pub right: bool,
}

/// The extent of the player's hitbox.
pub open spec fn hitbox() -> Size {
    Size { width: HITBOX_WIDTH, height: HITBOX_HEIGHT }
}

/// The extent of one tile.
pub open spec fn tile_extent() -> Size {
    Size { width: TILE_SIZE, height: TILE_SIZE }
}

/// The extent of the square in which the player and an enemy hurt each other.
pub open spec fn contact_extent() -> Size {
    Size { width: CONTACT_SIZE, height: CONTACT_SIZE }
}

/// Whether a player standing at `position` would overlap a tile that blocks movement.
pub open spec fn blocked(position: Position, walls: Seq<Tile>) -> bool {
    exists|k: int|
        0 <= k < walls.len() && (#[trigger] walls[k]).collider && overlap(
            position,
            hitbox(),
            walls[k].position,
            tile_extent(),
        )
}

/// The displacement that the held keys ask for in a tick of `delta` microseconds.
/// Opposite keys cancel each other.
pub open spec fn intent(speed: u32, controls: Controls, delta: u32) -> Velocity {
    let step = travel(speed, delta);
    Velocity {
        x: ((if controls.right { step } else { 0 }) - (if controls.left { step } else { 0 })) as i64,
        y: ((if controls.up { step } else { 0 }) - (if controls.down { step } else { 0 })) as i64,
    }
}

/// Where a horizontal displacement would take the player.
pub open spec fn candidate_x(position: Position, velocity: Velocity) -> Position {
    Position { x: clamp_coord(position.x + velocity.x) as i32, y: position.y }
}

/// Where a vertical displacement would take the player.
pub open spec fn candidate_y(position: Position, velocity: Velocity) -> Position {
    Position { x: position.x, y: clamp_coord(position.y + velocity.y) as i32 }
}

/// The position from which the vertical move is tried: the horizontal candidate if it is
/// free, the old position if not.
pub open spec fn after_x_move(position: Position, velocity: Velocity, walls: Seq<Tile>) -> Position {
    if blocked(candidate_x(position, velocity), walls) {
        position
    } else {
        candidate_x(position, velocity)
    }
}

/// The position after both moves, each axis resolved on its own: first the horizontal
/// move, then the vertical move from wherever the first one ended.
pub open spec fn resolved_position(position: Position, velocity: Velocity, walls: Seq<Tile>) -> Position {
    let middle = after_x_move(position, velocity, walls);
    if blocked(candidate_y(middle, velocity), walls) {
        middle
    } else {
        candidate_y(middle, velocity)
    }
}

/// The player that the session starts with.
pub fn player_spawn_system() -> (player: Player)
    ensures
        player == (Player {
            speed: PLAYER_SPEED,
            num_bombs: STARTING_BOMB_COUNT,
            position: Position { x: 128_000, y: -96_000i32 },
            health: STARTING_HEALTH,
        }),
{
    Player {
        speed: PLAYER_SPEED,
        num_bombs: STARTING_BOMB_COUNT,
        position: Position { x: 128_000, y: -96_000 },
        health: STARTING_HEALTH,
    }
}

/// Tells whether the player could stand at `target_player_pos`: `true` when the hitbox
/// placed there overlaps no tile that blocks movement. Breakable and solid walls block
/// alike.
pub fn wall_collision_check(target_player_pos: Position, walls: &Vec<Tile>) -> (free: bool)
    ensures
        free == !blocked(target_player_pos, walls@),
{
    let mut k: usize = 0;
    while k < walls.len()
        invariant
            k <= walls.len(),
            forall|j: int|
                0 <= j < k ==> !((#[trigger] walls@[j]).collider && overlap(
                    target_player_pos,
                    hitbox(),
                    walls@[j].position,
                    tile_extent(),
                )),
        decreases walls.len() - k,
    {
        let wall = walls[k];
        if wall.collider && collide(
            target_player_pos,
            Size { width: HITBOX_WIDTH, height: HITBOX_HEIGHT },
            wall.position,
            Size::splat(TILE_SIZE),
        ) {
            return false;
        }
        k += 1;
    }
    true
}

/// Computes the displacement that the held keys ask for.
pub fn movement_intent(speed: u32, controls: Controls, delta: u32) -> (velocity: Velocity)
    ensures
        velocity == intent(speed, controls, delta),
{
    let step: i64 = travel_distance(speed, delta) as i64;
    let mut x: i64 = 0;
    let mut y: i64 = 0;
    if controls.up {
        y += step;
    }
    if controls.down {
        y -= step;
    }
    if controls.left {
        x -= step;
    }
    if controls.right {
        x += step;
    }
    Velocity { x, y }
}

/// Moves the player as the held keys ask, as far as the walls allow. The horizontal move
/// is made if the place it leads to is free; then the vertical move is tried from there in
/// the same way. So the player slides along a wall that blocks only one of the two.
pub fn player_movement_system(player: &mut Player, walls: &Vec<Tile>, controls: Controls, delta: u32)
    ensures
        final(player).position == resolved_position(
            old(player).position,
            intent(old(player).speed, controls, delta),
            walls@,
        ),
        final(player).speed == old(player).speed,
        final(player).num_bombs == old(player).num_bombs,
        final(player).health == old(player).health,
{
    let velocity = movement_intent(player.speed, controls, delta);
    let target = Position { x: offset_coord(player.position.x, velocity.x), y: player.position.y };
    if wall_collision_check(target, walls) {
        player.position = target;
    }
    let target = Position { x: player.position.x, y: offset_coord(player.position.y, velocity.y) };
    if wall_collision_check(target, walls) {
        player.position = target;
    }
}

/// On each axis the player ends exactly at the candidate position when that is free, and
/// stays where it was when a wall blocks it.
pub proof fn lemma_movement_contained(position: Position, velocity: Velocity, walls: Seq<Tile>)
    ensures
        ({
            let middle = after_x_move(position, velocity, walls);
            let end = resolved_position(position, velocity, walls);
            &&& blocked(candidate_x(position, velocity), walls) ==> end.x == position.x
            &&& !blocked(candidate_x(position, velocity), walls) ==> end.x == candidate_x(
                position,
                velocity,
            ).x
            &&& blocked(candidate_y(middle, velocity), walls) ==> end.y == position.y
            &&& !blocked(candidate_y(middle, velocity), walls) ==> end.y == candidate_y(
                middle,
                velocity,
            ).y
        }),
{
}

/// A player who stands clear of every wall still does after moving.
pub proof fn lemma_movement_stays_clear(position: Position, velocity: Velocity, walls: Seq<Tile>)
    requires
        !blocked(position, walls),
    ensures
        !blocked(resolved_position(position, velocity, walls), walls),
{
}

/// The health nearest to `value` that the player can have.
pub open spec fn clamp_health(value: int) -> int {
    if value < i64::MIN {
        i64::MIN as int
    } else if value > i64::MAX {
        i64::MAX as int
    } else {
        value
    }
}

/// The stock of bombs nearest to `count` that the player can hold.
pub open spec fn clamp_bombs(count: int) -> int {
    if count > usize::MAX {
        usize::MAX as int
    } else {
        count
    }
}

/// Selects the enemies in contact with a player at `position`.
pub open spec fn touching(position: Position) -> spec_fn(Enemy) -> bool {
    |enemy: Enemy| overlap(position, contact_extent(), enemy.position, contact_extent())
}

/// Selects the pickups that a player at `position` collects.
pub open spec fn collected(position: Position) -> spec_fn(BombPickup) -> bool {
    |pickup: BombPickup| overlap(position, hitbox(), pickup.position, tile_extent())
}

/// Selects the pickups that a player at `position` leaves lying.
pub open spec fn left_lying(position: Position) -> spec_fn(BombPickup) -> bool {
    |pickup: BombPickup| !overlap(position, hitbox(), pickup.position, tile_extent())
}

/// Whether a bomb is laid: the key was pressed in this tick and a bomb is in stock.
pub open spec fn placing_bomb(player: Player, just_pressed: bool) -> bool {
    just_pressed && player.num_bombs > 0
}

/// Lays a bomb where the player stands, if the key was pressed in this tick and a bomb is
/// in stock. The bomb is armed with the full fuse and the stock goes down by one. Without
/// the key, or without a bomb in stock, nothing happens.
pub fn place_bomb_system(player: &mut Player, bombs: &mut Vec<Bomb>, just_pressed: bool)
    ensures
        placing_bomb(*old(player), just_pressed) ==> final(bombs)@ == old(bombs)@.push(
            Bomb { position: old(player).position, elapsed: 0 },
        ),
        placing_bomb(*old(player), just_pressed) ==> *final(player) == (Player {
            num_bombs: (old(player).num_bombs - 1) as usize,
            ..*old(player)
        }),
        !placing_bomb(*old(player), just_pressed) ==> final(bombs)@ == old(bombs)@,
        !placing_bomb(*old(player), just_pressed) ==> *final(player) == *old(player),
{
    if just_pressed && player.num_bombs > 0 {
        bombs.push(Bomb::new(player.position));
        player.num_bombs -= 1;
    }
}

/// Hurts the player once for every enemy in contact. There is no pause between hits: an
/// enemy that stays in contact hurts again in every tick.
pub fn enemy_collision_check(player: &mut Player, enemies: &Vec<Enemy>)
    ensures
        final(player).health == clamp_health(
            old(player).health - CONTACT_DAMAGE * enemies@.filter(
                touching(old(player).position),
            ).len(),
        ),
        final(player).speed == old(player).speed,
        final(player).num_bombs == old(player).num_bombs,
        final(player).position == old(player).position,
{
    let mut hits: usize = 0;
    let mut i: usize = 0;
    while i < enemies.len()
        invariant
            i <= enemies.len(),
            hits <= i,
            hits == enemies@.take(i as int).filter(touching(player.position)).len(),
        decreases enemies.len() - i,
    {
        proof {
            lemma_filter_take_next(enemies@, touching(player.position), i as int);
        }
        if collide(
            player.position,
            Size::splat(CONTACT_SIZE),
            enemies[i].position,
            Size::splat(CONTACT_SIZE),
        ) {
            hits += 1;
        }
        i += 1;
    }
    proof {
        lemma_take_all(enemies@);
    }
    let left: i128 = player.health as i128 - (CONTACT_DAMAGE as i128) * (hits as i128);
    player.health = if left < i64::MIN as i128 {
        i64::MIN
    } else {
        left as i64
    };
}

/// Collects every pickup that the player's hitbox overlaps: the pickup is removed and the
/// stock of bombs goes up by one for each.
pub fn pickup_collision_check(player: &mut Player, pickups: &mut Vec<BombPickup>)
    ensures
        final(pickups)@ == old(pickups)@.filter(left_lying(old(player).position)),
        final(player).num_bombs == clamp_bombs(
            old(player).num_bombs + old(pickups)@.filter(collected(old(player).position)).len(),
        ),
        final(player).speed == old(player).speed,
        final(player).position == old(player).position,
        final(player).health == old(player).health,
{
    let mut kept: Vec<BombPickup> = Vec::new();
    let mut found: usize = 0;
    let mut i: usize = 0;
    while i < pickups.len()
        invariant
            i <= pickups.len(),
            found <= i,
            *pickups == *old(pickups),
            *player == *old(player),
            kept@ == pickups@.take(i as int).filter(left_lying(player.position)),
            found == pickups@.take(i as int).filter(collected(player.position)).len(),
        decreases pickups.len() - i,
    {
        let pickup = pickups[i];
        proof {
            lemma_filter_take_next(pickups@, collected(player.position), i as int);
            lemma_filter_take_next(pickups@, left_lying(player.position), i as int);
        }
        if collide(
            player.position,
            Size { width: HITBOX_WIDTH, height: HITBOX_HEIGHT },
            pickup.position,
            Size::splat(TILE_SIZE),
        ) {
            found += 1;
        } else {
            kept.push(pickup);
        }
        i += 1;
    }
    proof {
        lemma_take_all(pickups@);
    }
    *pickups = kept;
    player.num_bombs = match player.num_bombs.checked_add(found) {
        Some(stock) => stock,
        None => usize::MAX,
    };
}

} // verus!
