use bomberman::bomb::Bomb;
use bomberman::components::{Position, Velocity};
use bomberman::enemy::Enemy;
use bomberman::pickup::BombPickup;
use bomberman::player::{
    enemy_collision_check, movement_intent, pickup_collision_check, place_bomb_system,
    player_movement_system, player_spawn_system, wall_collision_check, Controls, Player,
    STARTING_BOMB_COUNT, STARTING_HEALTH,
};
use bomberman::tilemap::Tile;

fn at(x: i32, y: i32) -> Position {
    Position { x, y }
}

fn keys(up: bool, down: bool, left: bool, right: bool) -> Controls {
    Controls { up, down, left, right }
}

fn player_at(x: i32, y: i32) -> Player {
    Player { speed: 60, num_bombs: 5, position: at(x, y), health: 100 }
}

fn wall(x: i32, y: i32) -> Tile {
    Tile { position: at(x, y), collider: true, breakable: false }
}

fn enemy(x: i32, y: i32) -> Enemy {
    Enemy { speed: 8, position: at(x, y) }
}

const FRAME: u32 = 16_667;

#[test]
fn player_starts_with_five_bombs_and_full_health() {
    assert_eq!(STARTING_BOMB_COUNT, 5);
    assert_eq!(STARTING_HEALTH, 100);
    assert_eq!(
        player_spawn_system(),
        Player { speed: 60, num_bombs: 5, position: at(128_000, -96_000), health: 100 }
    );
}

#[test]
fn keys_give_the_displacement() {
    assert_eq!(movement_intent(60, keys(false, false, false, false), FRAME), Velocity { x: 0, y: 0 });
    assert_eq!(movement_intent(60, keys(true, false, false, false), FRAME), Velocity { x: 0, y: 6_400 });
    assert_eq!(movement_intent(60, keys(false, true, false, false), FRAME), Velocity { x: 0, y: -6_400 });
    assert_eq!(movement_intent(60, keys(false, false, true, false), FRAME), Velocity { x: -6_400, y: 0 });
    assert_eq!(movement_intent(60, keys(false, false, false, true), FRAME), Velocity { x: 6_400, y: 0 });
    assert_eq!(movement_intent(60, keys(true, true, true, true), FRAME), Velocity { x: 0, y: 0 });
    assert_eq!(movement_intent(60, keys(true, false, false, true), FRAME), Velocity { x: 6_400, y: 6_400 });
}

#[test]
fn free_player_moves_to_the_candidate() {
    let mut player = player_at(0, 0);
    player_movement_system(&mut player, &Vec::new(), keys(true, false, false, true), FRAME);
    assert_eq!(player, player_at(6_400, 6_400));
    player_movement_system(&mut player, &vec![wall(500_000, 0)], keys(false, true, true, false), FRAME);
    assert_eq!(player, player_at(0, 0));
}

#[test]
fn wall_blocks_the_hitbox_not_the_sprite() {
    // Half extents across: 22.4 + 32 pixels. Along: 44.8 + 32 pixels.
    let walls = vec![wall(64_000, 0)];
    assert!(wall_collision_check(at(9_600, 0), &walls));
    assert!(!wall_collision_check(at(9_601, 0), &walls));
    assert!(wall_collision_check(at(64_000, 76_800), &walls));
    assert!(!wall_collision_check(at(64_000, 76_799), &walls));
    assert!(!wall_collision_check(at(64_000, -76_799), &walls));
    assert!(wall_collision_check(at(64_000, 0), &Vec::new()));
}

#[test]
fn only_colliders_block() {
    let floor = Tile { position: at(0, 0), collider: false, breakable: false };
    let odd = Tile { position: at(0, 0), collider: false, breakable: true };
    let crate_wall = Tile { position: at(0, 0), collider: true, breakable: true };
    assert!(wall_collision_check(at(0, 0), &vec![floor, odd]));
    assert!(!wall_collision_check(at(0, 0), &vec![floor, crate_wall]));
    assert!(!wall_collision_check(at(0, 0), &vec![wall(0, 0)]));
}

#[test]
fn blocked_axis_keeps_its_coordinate() {
    let walls = vec![wall(64_000, 0)];
    let mut player = player_at(3_201, 0);
    player_movement_system(&mut player, &walls, keys(false, false, false, true), FRAME);
    assert_eq!(player, player_at(3_201, 0));
    let mut player = player_at(3_200, 0);
    player_movement_system(&mut player, &walls, keys(false, false, false, true), FRAME);
    assert_eq!(player, player_at(9_600, 0));
}

#[test]
fn player_slides_along_a_wall() {
    let walls = vec![wall(64_000, 0)];
    let mut player = player_at(3_201, 0);
    player_movement_system(&mut player, &walls, keys(true, false, false, true), FRAME);
    assert_eq!(player, player_at(3_201, 6_400));
    // Blocked from below, free to the right.
    let walls = vec![wall(0, 80_000)];
    let mut player = player_at(0, 0);
    player_movement_system(&mut player, &walls, keys(true, false, false, true), FRAME);
    assert_eq!(player, player_at(6_400, 0));
}

#[test]
fn vertical_move_starts_from_where_the_horizontal_move_ended() {
    // The wall is in the way of going up only after the step to the right.
    let walls = vec![wall(60_799, 83_199)];
    let mut player = player_at(0, 0);
    player_movement_system(&mut player, &walls, keys(true, false, false, false), FRAME);
    assert_eq!(player, player_at(0, 6_400));
    let mut player = player_at(0, 0);
    player_movement_system(&mut player, &walls, keys(true, false, false, true), FRAME);
    assert_eq!(player, player_at(6_400, 0));
}

#[test]
fn player_stops_at_the_end_of_the_field() {
    let mut player = Player { speed: u32::MAX, num_bombs: 0, position: at(i32::MAX - 5, i32::MIN + 5), health: 1 };
    player_movement_system(&mut player, &Vec::new(), keys(false, true, false, true), u32::MAX);
    assert_eq!(player.position, at(i32::MAX, i32::MIN));
}

#[test]
fn placing_a_bomb_takes_one_from_the_stock() {
    let mut player = player_at(0, 0);
    let mut bombs = Vec::new();
    place_bomb_system(&mut player, &mut bombs, true);
    assert_eq!(player.num_bombs, 4);
    assert_eq!(bombs, vec![Bomb { position: at(0, 0), elapsed: 0 }]);
    player.position = at(5, 6);
    place_bomb_system(&mut player, &mut bombs, true);
    assert_eq!(player, Player { speed: 60, num_bombs: 3, position: at(5, 6), health: 100 });
    assert_eq!(bombs, vec![Bomb { position: at(0, 0), elapsed: 0 }, Bomb { position: at(5, 6), elapsed: 0 }]);
}

#[test]
fn no_bomb_without_the_key_or_without_stock() {
    let mut player = player_at(0, 0);
    let mut bombs = vec![Bomb { position: at(1, 1), elapsed: 9 }];
    place_bomb_system(&mut player, &mut bombs, false);
    assert_eq!(player, player_at(0, 0));
    assert_eq!(bombs, vec![Bomb { position: at(1, 1), elapsed: 9 }]);
    player.num_bombs = 0;
    place_bomb_system(&mut player, &mut bombs, true);
    assert_eq!(player.num_bombs, 0);
    assert_eq!(bombs, vec![Bomb { position: at(1, 1), elapsed: 9 }]);
    player.num_bombs = 1;
    place_bomb_system(&mut player, &mut bombs, true);
    place_bomb_system(&mut player, &mut bombs, true);
    assert_eq!(player.num_bombs, 0);
    assert_eq!(bombs.len(), 2);
}

#[test]
fn contact_costs_five_health_every_tick() {
    let mut player = player_at(0, 0);
    let enemies = vec![enemy(5_000, -5_000)];
    enemy_collision_check(&mut player, &enemies);
    assert_eq!(player.health, 95);
    enemy_collision_check(&mut player, &enemies);
    assert_eq!(player.health, 90);
    enemy_collision_check(&mut player, &enemies);
    assert_eq!(player.health, 85);
    assert_eq!(player, Player { speed: 60, num_bombs: 5, position: at(0, 0), health: 85 });
}

#[test]
fn every_enemy_in_contact_hurts() {
    let mut player = player_at(0, 0);
    // Half extents 10 + 10 pixels.
    let enemies = vec![enemy(19_999, 0), enemy(20_000, 0), enemy(0, -19_999), enemy(0, 20_000), enemy(0, 0)];
    enemy_collision_check(&mut player, &enemies);
    assert_eq!(player.health, 85);
    enemy_collision_check(&mut player, &Vec::new());
    assert_eq!(player.health, 85);
}

#[test]
fn health_has_no_floor_at_zero() {
    let mut player = player_at(0, 0);
    player.health = 3;
    let enemies = vec![enemy(0, 0)];
    enemy_collision_check(&mut player, &enemies);
    assert_eq!(player.health, -2);
    player.health = i64::MIN + 3;
    enemy_collision_check(&mut player, &enemies);
    assert_eq!(player.health, i64::MIN);
    enemy_collision_check(&mut player, &enemies);
    assert_eq!(player.health, i64::MIN);
}

#[test]
fn pickups_under_the_player_are_collected() {
    let mut player = player_at(0, 0);
    // Half extents across: 22.4 + 32 pixels. Along: 44.8 + 32 pixels.
    let mut pickups = vec![
        BombPickup { position: at(54_399, 0) },
        BombPickup { position: at(54_400, 0) },
        BombPickup { position: at(0, -76_799) },
        BombPickup { position: at(0, 76_800) },
    ];
    pickup_collision_check(&mut player, &mut pickups);
    assert_eq!(player, Player { speed: 60, num_bombs: 7, position: at(0, 0), health: 100 });
    assert_eq!(pickups, vec![BombPickup { position: at(54_400, 0) }, BombPickup { position: at(0, 76_800) }]);
    pickup_collision_check(&mut player, &mut pickups);
    assert_eq!(player.num_bombs, 7);
    assert_eq!(pickups.len(), 2);
}

#[test]
fn stock_of_bombs_stops_at_the_largest_count() {
    let mut player = player_at(0, 0);
    player.num_bombs = usize::MAX - 1;
    let mut pickups = vec![BombPickup { position: at(0, 0) }, BombPickup { position: at(1, 1) }];
    pickup_collision_check(&mut player, &mut pickups);
    assert_eq!(player.num_bombs, usize::MAX);
    assert!(pickups.is_empty());
    let mut none: Vec<BombPickup> = Vec::new();
    pickup_collision_check(&mut player, &mut none);
    assert_eq!(player.num_bombs, usize::MAX);
}
