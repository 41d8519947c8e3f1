use bomberman::components::Position;
use bomberman::enemy::{
    check_for_explosion_collision, enemy_movement_system, spawn_enemy_system, travel_distance,
    Enemy, ENEMY_SPEED,
};
use bomberman::explosion::Explosion;
use bomberman::math::integer_sqrt;
use bomberman::state::MainState;

fn at(x: i32, y: i32) -> Position {
    Position { x, y }
}

fn enemy(x: i32, y: i32) -> Enemy {
    Enemy { speed: ENEMY_SPEED, position: at(x, y) }
}

#[test]
fn integer_square_roots() {
    assert_eq!(integer_sqrt(0), 0);
    assert_eq!(integer_sqrt(1), 1);
    assert_eq!(integer_sqrt(2), 1);
    assert_eq!(integer_sqrt(3), 1);
    assert_eq!(integer_sqrt(4), 2);
    assert_eq!(integer_sqrt(24), 4);
    assert_eq!(integer_sqrt(25), 5);
    assert_eq!(integer_sqrt(90_000_000_000), 300_000);
    assert_eq!(integer_sqrt(89_999_999_999), 299_999);
    assert_eq!(integer_sqrt(u128::MAX), u128::from(u64::MAX));
    assert_eq!(integer_sqrt(u128::from(u64::MAX) * u128::from(u64::MAX)), u128::from(u64::MAX));
    assert_eq!(integer_sqrt(u128::from(u64::MAX) * u128::from(u64::MAX) - 1), u128::from(u64::MAX) - 1);
}

#[test]
fn travel_is_speed_times_tile_times_time() {
    // 0.8 tiles per second for one second: 51.2 pixels.
    assert_eq!(travel_distance(8, 1_000_000), 51_200);
    // 6 tiles per second for a sixtieth of a second: 6.4 pixels.
    assert_eq!(travel_distance(60, 16_667), 6_400);
    assert_eq!(travel_distance(8, 1_000), 51);
    assert_eq!(travel_distance(0, 1_000_000), 0);
    assert_eq!(travel_distance(8, 0), 0);
    assert_eq!(travel_distance(u32::MAX, u32::MAX), 118_059_162_016_765_548);
}

#[test]
fn session_starts_with_four_enemies() {
    assert_eq!(
        spawn_enemy_system(),
        vec![enemy(100_000, 100_000), enemy(200_000, 200_000), enemy(300_000, 300_000), enemy(100_000, -900_000)]
    );
}

#[test]
fn enemy_on_the_axis_closes_in_by_speed_times_tile_times_time() {
    let mut enemies = vec![enemy(300_000, 0)];
    enemy_movement_system(&mut enemies, at(0, 0), 1_000_000);
    assert_eq!(enemies, vec![enemy(300_000 - 51_200, 0)]);
    enemy_movement_system(&mut enemies, at(0, 0), 16_667);
    // 0.8 * 64 * 0.016667 = 0.853 pixels.
    assert_eq!(enemies, vec![enemy(300_000 - 51_200 - 853, 0)]);
}

#[test]
fn enemy_moves_along_the_line_to_the_player() {
    let mut enemies = vec![enemy(0, 0), enemy(0, 0)];
    enemies[1].speed = 80;
    // Distance 5 pixels; 0.1 s at 0.8 tiles per second is 5.12 pixels.
    enemy_movement_system(&mut enemies, at(3_000, 4_000), 100_000);
    assert_eq!(enemies[0].position, at(3_072, 4_096));
    assert_eq!(enemies[1].position, at(30_720, 40_960));
    let mut enemies = vec![enemy(0, 0)];
    enemy_movement_system(&mut enemies, at(-3_000, -4_000), 100_000);
    assert_eq!(enemies[0].position, at(-3_072, -4_096));
    let mut enemies = vec![enemy(0, 0)];
    enemy_movement_system(&mut enemies, at(-4_000, 3_000), 100_000);
    assert_eq!(enemies[0].position, at(-4_096, 3_072));
}

#[test]
fn shares_are_rounded_towards_zero() {
    // Line of length floor(sqrt(1^2 + 2^2)) = 2, step 51: shares 1*51/2 and 2*51/2.
    let mut enemies = vec![enemy(0, 0)];
    enemy_movement_system(&mut enemies, at(1, 2), 1_000);
    assert_eq!(enemies[0].position, at(25, 51));
    let mut enemies = vec![enemy(0, 0)];
    enemy_movement_system(&mut enemies, at(-1, -2), 1_000);
    assert_eq!(enemies[0].position, at(-25, -51));
}

#[test]
fn enemy_on_the_player_does_not_move() {
    let mut enemies = vec![enemy(12_345, -6_789)];
    enemy_movement_system(&mut enemies, at(12_345, -6_789), 1_000_000);
    assert_eq!(enemies, vec![enemy(12_345, -6_789)]);
}

#[test]
fn pursuit_across_the_whole_field_stays_in_range() {
    let mut enemies = vec![Enemy { speed: u32::MAX, position: at(i32::MIN, i32::MIN) }];
    enemy_movement_system(&mut enemies, at(i32::MAX, i32::MAX), u32::MAX);
    assert_eq!(enemies[0].position, at(i32::MAX, i32::MAX));
    let mut enemies = vec![Enemy { speed: u32::MAX, position: at(i32::MAX, 0) }];
    enemy_movement_system(&mut enemies, at(i32::MIN, 0), u32::MAX);
    assert_eq!(enemies[0].position, at(i32::MIN, 0));
}

#[test]
fn no_enemies_nothing_moves() {
    let mut enemies: Vec<Enemy> = Vec::new();
    enemy_movement_system(&mut enemies, at(0, 0), 1_000);
    assert!(enemies.is_empty());
}

#[test]
fn explosion_destroys_enemies_in_reach_for_a_hundred_points_each() {
    // Half extents: 80 + 32 pixels across, 80 + 64 pixels along.
    let mut enemies = vec![
        enemy(111_999, 0),
        enemy(112_000, 0),
        enemy(0, 143_999),
        enemy(0, -144_000),
        enemy(-50_000, -50_000),
    ];
    let explosions = vec![Explosion::new(at(0, 0))];
    let mut state = MainState { score: 7 };
    check_for_explosion_collision(&mut enemies, &explosions, &mut state);
    assert_eq!(enemies, vec![enemy(112_000, 0), enemy(0, -144_000)]);
    assert_eq!(state.score, 307);
}

#[test]
fn enemy_in_two_explosions_is_scored_once() {
    let mut enemies = vec![enemy(10_000, 10_000)];
    let explosions = vec![Explosion::new(at(0, 0)), Explosion::new(at(20_000, 20_000))];
    let mut state = MainState::new();
    check_for_explosion_collision(&mut enemies, &explosions, &mut state);
    assert!(enemies.is_empty());
    assert_eq!(state.score, 100);
    check_for_explosion_collision(&mut enemies, &explosions, &mut state);
    assert_eq!(state.score, 100);
}

#[test]
fn no_explosions_no_enemy_dies() {
    let mut enemies = vec![enemy(0, 0)];
    let mut state = MainState::new();
    check_for_explosion_collision(&mut enemies, &Vec::new(), &mut state);
    assert_eq!(enemies, vec![enemy(0, 0)]);
    assert_eq!(state.score, 0);
}
