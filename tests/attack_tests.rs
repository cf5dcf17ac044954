use purranormal_defence::attack::{Attack, CostKind};
use purranormal_defence::attack_manager::{
    AttackButtons, AttackInput, AttackManager, AttackType,
};
use purranormal_defence::facing::{Facing8, IVec2};
use purranormal_defence::generic_attribute::{GenericAttribute, MILLIS_PER_POINT};

const P: u64 = MILLIS_PER_POINT;

fn buttons() -> AttackButtons {
    AttackButtons {
        main: false,
        secondary: false,
        slot_1: false,
        slot_2: false,
        slot_3: false,
        slot_4: false,
    }
}

fn stamina_attack(cost_points: u64) -> Attack {
    let mut attack = Attack::new();
    attack.cost_kind = CostKind::Stamina;
    attack.cost_value = cost_points * P;
    attack
}

#[test]
fn attack_defaults() {
    let attack = Attack::new();
    assert_eq!(attack.name, "Attack");
    assert_eq!(attack.animation_name, "default");
    assert_eq!(attack.damage, 50);
    assert_eq!(attack.get_cost(), (CostKind::Mana, 0));
    assert!(!attack.enabled);
    assert!(attack.seen_bodies.is_empty());
}

#[test]
fn cost_kind_attribute_names() {
    assert_eq!(CostKind::Health.to_attribute_name(), "Health");
    assert_eq!(CostKind::Stamina.to_attribute_name(), "Stamina");
    assert_eq!(CostKind::Mana.to_attribute_name(), "Mana");
}

#[test]
fn body_is_struck_once_per_activation() {
    let mut attack = Attack::new();
    attack.start();
    assert!(attack.on_hurtbox_body_entered(7));
    assert!(!attack.on_hurtbox_body_entered(7));
    assert!(attack.on_hurtbox_body_entered(8));
    attack.on_sprite_finished();
    assert!(!attack.enabled);
    attack.start();
    assert!(attack.on_hurtbox_body_entered(7));
}

#[test]
fn bodies_are_ignored_outside_the_window() {
    let mut attack = Attack::new();
    assert!(!attack.on_hurtbox_body_entered(3));
    attack.start();
    attack.on_sprite_finished();
    assert!(!attack.on_hurtbox_body_entered(3));
    assert!(attack.seen_bodies.is_empty());
}

#[test]
fn attack_types_input_names_and_indices() {
    let names: Vec<&str> = AttackType::all().iter().map(|t| t.to_input_name()).collect();
    assert_eq!(
        names,
        vec![
            "attack_main",
            "attack_secondary",
            "attack_slot_1",
            "attack_slot_2",
            "attack_slot_3",
            "attack_slot_4"
        ]
    );
    let indices: Vec<usize> = AttackType::all().iter().map(|t| t.to_node_index()).collect();
    assert_eq!(indices, vec![0, 1, 2, 3, 4, 5]);
}

#[test]
fn earlier_slot_wins_when_two_are_pressed() {
    let manager = AttackManager::new();
    let mut pressed = buttons();
    pressed.slot_2 = true;
    pressed.secondary = true;
    let input = manager.handle_input(&pressed, IVec2::new(0, 40));
    assert_eq!(
        input,
        Some(AttackInput { attack: AttackType::Secondary, attack_direction: Facing8::Down })
    );
    let mut pressed = buttons();
    pressed.slot_4 = true;
    pressed.slot_3 = true;
    let input = manager.handle_input(&pressed, IVec2::new(-5, 0));
    assert_eq!(
        input,
        Some(AttackInput { attack: AttackType::Slot3, attack_direction: Facing8::Left })
    );
}

#[test]
fn no_pressed_slot_no_input() {
    let manager = AttackManager::new();
    assert_eq!(manager.handle_input(&buttons(), IVec2::new(3, 3)), None);
}

#[test]
fn cost_blocked_when_pool_too_low() {
    let mut manager = AttackManager::new();
    let mut attack = stamina_attack(20);
    let mut pool = GenericAttribute::with_values(String::from("Stamina"), 10 * P, 100 * P, 0);
    let input = AttackInput { attack: AttackType::Main, attack_direction: Facing8::Right };
    assert!(!manager.handle_attack(input, Some(&mut attack), Some(&mut pool)));
    assert_eq!(pool.get_value(), 10 * P);
    assert!(!attack.enabled);
    assert_eq!(manager.rotation_degrees, 0);
}

#[test]
fn cost_charged_when_pool_suffices() {
    let mut manager = AttackManager::new();
    let mut attack = stamina_attack(20);
    let mut pool = GenericAttribute::with_values(String::from("Stamina"), 30 * P, 100 * P, 0);
    let input = AttackInput { attack: AttackType::Main, attack_direction: Facing8::Right };
    assert!(manager.handle_attack(input, Some(&mut attack), Some(&mut pool)));
    assert_eq!(pool.get_value(), 10 * P);
    assert!(attack.enabled);
    assert_eq!(manager.rotation_degrees, 90);
}

#[test]
fn free_attack_needs_no_pool() {
    let mut manager = AttackManager::new();
    let mut attack = Attack::new();
    let input = AttackInput { attack: AttackType::Slot1, attack_direction: Facing8::UpLeft };
    assert!(manager.handle_attack(input, Some(&mut attack), None));
    assert!(attack.enabled);
    assert_eq!(manager.rotation_degrees, -45);
    let mut empty = GenericAttribute::with_values(String::from("Mana"), 0, 100 * P, 0);
    assert!(manager.can_afford_attack(0, Some(&mut empty)));
    assert_eq!(empty.get_value(), 0);
    assert!(manager.can_afford_attack(0, None));
}

#[test]
fn costly_attack_without_pool_is_blocked() {
    let manager = AttackManager::new();
    assert!(!manager.can_afford_attack(5 * P, None));
}

#[test]
fn missing_attack_slot_does_nothing() {
    let mut manager = AttackManager::new();
    let mut pool = GenericAttribute::new(String::from("Mana"));
    let input = AttackInput { attack: AttackType::Slot4, attack_direction: Facing8::Up };
    assert!(!manager.handle_attack(input, None, Some(&mut pool)));
    assert_eq!(pool.get_value(), 100 * P);
}
