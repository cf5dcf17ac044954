use purranormal_defence::enemy::{ActionState, Death, Enemy, DEATH_DROP_VALUE};
use purranormal_defence::health::{Health, Tint};

#[test]
fn health_death_reported_on_the_crossing_blow() {
    let mut h = Health::new();
    assert_eq!(h.get_health(), 100);
    assert!(!h.take_damage(40));
    assert_eq!(h.get_health(), 60);
    assert!(h.take_damage(60));
    assert_eq!(h.get_health(), 0);
    assert!(!h.take_damage(10));
    assert_eq!(h.get_health(), -10);
}

#[test]
fn health_damage_flash_and_reset() {
    let mut h = Health::with_health(5);
    assert_eq!(h.tint, Tint::Neutral);
    assert!(!h.take_damage(1));
    assert_eq!(h.tint, Tint::Damaged);
    h.stop_effect("hurt");
    assert_eq!(h.tint, Tint::Neutral);
    assert_eq!(h.get_health(), 4);
}

#[test]
fn health_overkill_reports_death_once() {
    let mut h = Health::with_health(1);
    assert!(h.take_damage(500));
    assert_eq!(h.get_health(), -499);
    assert!(!h.take_damage(500));
}

#[test]
fn enemy_defaults() {
    let e = Enemy::new();
    assert!(e.alive);
    assert_eq!(e.action_state, ActionState::Walking);
    assert_eq!(e.speed, 10);
    assert_eq!(e.physics_process(), Some(10));
}

#[test]
fn enemy_death_orders_one_drop() {
    let mut e = Enemy::new();
    let mut h = Health::new();
    assert_eq!(e.take_damage(&mut h, 50), None);
    assert!(e.alive);
    assert_eq!(e.action_state, ActionState::Walking);
    assert_eq!(e.take_damage(&mut h, 50), Some(Death { drop_value: DEATH_DROP_VALUE }));
    assert_eq!(DEATH_DROP_VALUE, 10);
    assert!(!e.alive);
    assert_eq!(e.action_state, ActionState::Dead);
    assert_eq!(e.physics_process(), None);
    assert_eq!(h.get_health(), 0);
    assert_eq!(h.tint, Tint::Damaged);
    assert_eq!(e.take_damage(&mut h, 50), None);
    assert!(!e.alive);
    assert_eq!(h.get_health(), -50);
}
