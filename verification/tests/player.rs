//! Tests of the player's spawn values, movement, jumping, death trigger
//! and climbing gravity.

use dungeon_rogue::MovementDirection;
use dungeon_rogue::Health;
use dungeon_rogue::player::MovementInput;
use dungeon_rogue::player::dead;
use dungeon_rogue::player::gravity_scale;
use dungeon_rogue::player::player_jump;
use dungeon_rogue::player::player_movement;
use dungeon_rogue::player::spawn_player;

fn no_keys() -> MovementInput {
    MovementInput {
        left: false,
        right: false,
        up_pressed: false,
        down_pressed: false,
        up: false,
        down: false,
    }
}

#[test]
fn should_spawn_a_player_with_speed() {
    let init = spawn_player();
    assert_eq!(init.speed.0, 120);
    assert!(matches!(init.direction, MovementDirection::Right));
}

#[test]
fn should_spawn_a_player_with_zero_velocity() {
    let init = spawn_player();
    assert_eq!((init.velocity.x, init.velocity.y), (0, 0));
}

#[test]
fn should_increase_player_speed_by_keyboard() {
    let init = spawn_player();
    let mut input = no_keys();
    input.right = true;
    let out = player_movement(&init.speed, &init.on_move, &init.climber, &init.direction, &input);
    assert_eq!(out.velocity_x, init.speed.0);
}

#[test]
fn should_change_movement_direction_on_move() {
    let init = spawn_player();
    let mut input = no_keys();
    input.right = true;
    let out = player_movement(&init.speed, &init.on_move, &init.climber, &init.direction, &input);
    assert_eq!(out.direction, MovementDirection::Right);

    let mut input = no_keys();
    input.left = true;
    let out = player_movement(&init.speed, &init.on_move, &init.climber, &out.direction, &input);
    assert_eq!(out.direction, MovementDirection::Left);

    // Any other key keeps the last direction.
    let input = no_keys();
    let out = player_movement(&init.speed, &init.on_move, &init.climber, &out.direction, &input);
    assert_eq!(out.direction, MovementDirection::Left);
}

#[test]
fn player_should_not_jump_without_ground_detection() {
    let out = player_jump(true, false, false);
    assert!(out.impulse.is_none());
}

#[test]
fn player_should_jump_by_space() {
    let out = player_jump(true, true, false);
    let impulse = out.impulse.expect("Should have external impulse");
    assert_eq!((impulse.x, impulse.y), (0, 65));
}

#[test]
fn player_should_dead_when_the_health_is_gone() {
    let init = spawn_player();
    let gone = Health { current: 0, max: init.health.max };
    assert!(dead(init.health.current, &gone));
}

#[test]
fn should_disable_gravity_during_climbing() {
    assert_eq!(gravity_scale(true), 0);
}
