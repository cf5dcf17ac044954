use purranormal_defence::enemy_manager::{DropPlacement, EnemyManager};
use purranormal_defence::facing::{Facing8, IVec2};
use purranormal_defence::player::{MovementState, Player, PlayerInput};

fn keys(right: bool, left: bool, down: bool, up: bool, run: bool) -> PlayerInput {
    PlayerInput { right, left, down, up, run }
}

#[test]
fn player_defaults() {
    let p = Player::new();
    assert_eq!(p.facing, Facing8::Down);
    assert_eq!(p.movement_state, MovementState::Idle);
    assert_eq!(p.get_health(), 100);
    assert_eq!(p.get_stamina(), 200);
    assert_eq!(p.process(), None);
}

#[test]
fn no_input_is_idle_and_still() {
    let mut p = Player::new();
    let m = p.physics_process(&keys(false, false, false, false, false));
    assert_eq!(m.movement_state, MovementState::Idle);
    assert_eq!(m.speed, 0);
    assert_eq!(m.direction, IVec2::zero());
    assert_eq!(m.facing, None);
    assert_eq!(p.facing, Facing8::Down);
}

#[test]
fn right_walks_at_one_hundred() {
    let mut p = Player::new();
    let m = p.physics_process(&keys(true, false, false, false, false));
    assert_eq!(m.movement_state, MovementState::Walking);
    assert_eq!(m.speed, 100);
    assert_eq!(m.direction, IVec2::new(1, 0));
    assert_eq!(m.facing, Some(Facing8::Right));
    assert_eq!(p.movement_state, MovementState::Walking);
}

#[test]
fn right_with_run_runs_at_two_hundred() {
    let mut p = Player::new();
    let m = p.physics_process(&keys(true, false, false, false, true));
    assert_eq!(m.movement_state, MovementState::Running);
    assert_eq!(m.speed, 200);
    assert_eq!(m.direction, IVec2::new(1, 0));
}

#[test]
fn opposite_keys_cancel_and_keep_facing() {
    let mut p = Player::new();
    p.physics_process(&keys(false, true, false, false, false));
    assert_eq!(p.facing, Facing8::Left);
    let m = p.physics_process(&keys(true, true, false, false, true));
    assert_eq!(m.movement_state, MovementState::Idle);
    assert_eq!(m.speed, 0);
    assert_eq!(p.facing, Facing8::Left);
}

#[test]
fn diagonal_keys_face_diagonally() {
    let mut p = Player::new();
    let m = p.physics_process(&keys(false, true, false, true, false));
    assert_eq!(m.direction, IVec2::new(-1, -1));
    assert_eq!(m.facing, Some(Facing8::UpLeft));
}

#[test]
fn debug_label_shows_facing() {
    let mut p = Player::new();
    p.debug = true;
    p.physics_process(&keys(false, false, true, false, false));
    assert_eq!(p.process(), Some("Down"));
    p.physics_process(&keys(true, false, false, true, false));
    assert_eq!(p.process(), Some("UpRight"));
}

#[test]
fn drop_without_template_places_nothing() {
    let manager = EnemyManager::new();
    assert_eq!(manager.spawn_drop(IVec2::new(4, 5), 10), None);
}

#[test]
fn drop_with_template_places_one() {
    let mut manager = EnemyManager::new();
    manager.has_drop_scene = true;
    assert_eq!(
        manager.spawn_drop(IVec2::new(4, -5), 10),
        Some(DropPlacement { value: 10, global_position: IVec2::new(4, -5) })
    );
    manager.spawn_enemy();
    assert!(manager.has_drop_scene);
    assert!(!manager.has_enemy_scene);
}
