//! The attack dispatcher: six attack slots bound to input actions, checked
//! in a fixed priority order, with the attack's cost charged to the
//! player's pool before the attack starts.

use crate::attack::Attack;
use crate::facing::{rotation_degrees, sector_of, Facing8, IVec2};
use crate::generic_attribute::{GenericAttribute, PoolView};
use vstd::prelude::*;

verus! {

/// One of the six attack slots.
#[derive(Clone, Copy, Debug, PartialEq, Eq, Structural)]
pub enum AttackType {
    Main,
    Secondary,
    Slot1,
    Slot2,
    Slot3,
    Slot4,
}

/// The priority of a slot, which is also the index of its attack among the
/// dispatcher's attack children.
pub open spec fn slot_index(t: AttackType) -> int {
    match t {
        AttackType::Main => 0,
        AttackType::Secondary => 1,
        AttackType::Slot1 => 2,
        AttackType::Slot2 => 3,
        AttackType::Slot3 => 4,
        AttackType::Slot4 => 5,
    }
}

/// The input action bound to a slot.
pub open spec fn input_name_of(t: AttackType) -> Seq<char> {
    match t {
        AttackType::Main => "attack_main"@,
        AttackType::Secondary => "attack_secondary"@,
        AttackType::Slot1 => "attack_slot_1"@,
        AttackType::Slot2 => "attack_slot_2"@,
        AttackType::Slot3 => "attack_slot_3"@,
        AttackType::Slot4 => "attack_slot_4"@,
    }
}

impl AttackType {
    /// Every slot, in priority order.
    pub fn all() -> (r: Vec<AttackType>)
        ensures
            r@.len() == 6,
            forall|i: int| 0 <= i < 6 ==> slot_index(#[trigger] r@[i]) == i,
    {
        vec![
            AttackType::Main,
            AttackType::Secondary,
            AttackType::Slot1,
            AttackType::Slot2,
            AttackType::Slot3,
            AttackType::Slot4,
        ]
    }

    pub fn to_input_name(&self) -> (r: &'static str)
        ensures
            r@ == input_name_of(*self),
    {
        match self {
            AttackType::Main => "attack_main",
            AttackType::Secondary => "attack_secondary",
            AttackType::Slot1 => "attack_slot_1",
            AttackType::Slot2 => "attack_slot_2",
            AttackType::Slot3 => "attack_slot_3",
            AttackType::Slot4 => "attack_slot_4",
        }
    }

    /// Index of the slot's attack among the dispatcher's attack children.
    pub fn to_node_index(&self) -> (r: usize)
        ensures
            r == slot_index(*self),
    {
        match self {
            AttackType::Main => 0,
            AttackType::Secondary => 1,
            AttackType::Slot1 => 2,
            AttackType::Slot2 => 3,
            AttackType::Slot3 => 4,
            AttackType::Slot4 => 5,
        }
    }
}

/// Which attack actions were just pressed this frame.
#[derive(Clone, Copy, Debug, PartialEq, Eq, Structural)]
pub struct AttackButtons {
    pub main: bool,
    pub secondary: bool,
    pub slot_1: bool,
    pub slot_2: bool,
    pub slot_3: bool,
    pub slot_4: bool,
}

impl AttackButtons {
    pub open spec fn pressed(self, t: AttackType) -> bool {
        match t {
            AttackType::Main => self.main,
            AttackType::Secondary => self.secondary,
            AttackType::Slot1 => self.slot_1,
            AttackType::Slot2 => self.slot_2,
            AttackType::Slot3 => self.slot_3,
            AttackType::Slot4 => self.slot_4,
        }
    }

    pub fn is_just_pressed(&self, t: AttackType) -> (r: bool)
        ensures
            r == self.pressed(t),
    {
        match t {
            AttackType::Main => self.main,
            AttackType::Secondary => self.secondary,
            AttackType::Slot1 => self.slot_1,
            AttackType::Slot2 => self.slot_2,
            AttackType::Slot3 => self.slot_3,
            AttackType::Slot4 => self.slot_4,
        }
    }
}

/// A slot whose action fired, with the aim direction at that moment.
#[derive(Clone, Copy, Debug, PartialEq, Eq, Structural)]
pub struct AttackInput {
    pub attack: AttackType,
    pub attack_direction: Facing8,
}

/// The dispatcher's own state: the rotation of the attack rig.
#[derive(Clone, Copy, Debug, PartialEq, Eq, Structural)]
pub struct AttackManager {
    /// Rotation of the rig, in degrees, pointing at the last attack's aim.
    pub rotation_degrees: i32,
}

impl AttackManager {
    pub fn new() -> (r: AttackManager)
        ensures
            r.rotation_degrees == 0,
    {
        AttackManager { rotation_degrees: 0 }
    }

    /// The first slot, in priority order, whose action was just pressed,
    /// aimed along `aim` (from the dispatcher towards the cursor); `None`
    /// when no action was pressed.
    pub fn handle_input(&self, buttons: &AttackButtons, aim: IVec2) -> (r: Option<AttackInput>)
        ensures
            r matches Some(input) ==> {
                &&& buttons.pressed(input.attack)
                &&& forall|t: AttackType|
                    slot_index(t) < slot_index(input.attack) ==> !buttons.pressed(t)
                &&& input.attack_direction == sector_of(aim.x as int, aim.y as int)
            },
            r is None ==> forall|t: AttackType| !buttons.pressed(t),
    {
        let order = AttackType::all();
        let mut i: usize = 0;
        while i < order.len()
            invariant
                order@.len() == 6,
                forall|j: int| 0 <= j < 6 ==> slot_index(#[trigger] order@[j]) == j,
                0 <= i <= 6,
                forall|t: AttackType| slot_index(t) < i ==> !buttons.pressed(t),
            decreases order.len() - i,
        {
            let attack_type = order[i];
            if buttons.is_just_pressed(attack_type) {
                let attack_direction = Facing8::from_any_vector(aim);
                return Some(AttackInput { attack: attack_type, attack_direction });
            }
            assert forall|t: AttackType| slot_index(t) < i + 1 implies !buttons.pressed(t) by {
                if slot_index(t) == i {
                    assert(t == order@[i as int]);
                }
            }
            i = i + 1;
        }
        None
    }

    /// Charges `cost_value` to `pool`, the player's pool named after the
    /// attack's cost kind if there is one. A free attack is always allowed
    /// and charges nothing.
    pub fn can_afford_attack(&self, cost_value: u64, pool: Option<&mut GenericAttribute>) -> (r:
        bool)
        ensures
            r == (cost_value == 0 || (pool matches Some(p) && cost_value <= (*p)@.value)),
            pool matches Some(p) ==> final(p)@ == (if r && cost_value != 0 {
                PoolView { value: (*p)@.value - cost_value, ..(*p)@ }
            } else {
                (*p)@
            }),
    {
        if cost_value == 0 {
            return true;
        }
        match pool {
            Some(p) => p.take(cost_value),
            None => false,
        }
    }

    /// Starts the attack of the slot that fired, `attack` being the
    /// dispatcher's attack child at that slot's index if there is one, when
    /// its cost can be paid from `pool`; the rig is turned to the aim first.
    /// Returns whether the attack started. Otherwise the input is used up
    /// with no effect.
    pub fn handle_attack(
        &mut self,
        attack_input: AttackInput,
        attack: Option<&mut Attack>,
        pool: Option<&mut GenericAttribute>,
    ) -> (r: bool)
        ensures
            r == (attack matches Some(a) && (a.cost_value == 0 || (pool matches Some(p)
                && a.cost_value <= (*p)@.value))),
            r ==> final(self).rotation_degrees == rotation_degrees(attack_input.attack_direction),
            !r ==> final(self).rotation_degrees == old(self).rotation_degrees,
            attack matches Some(a) ==> {
                &&& final(a).same_settings(a)
                &&& final(a).window() == (if r {
                    a.window().started()
                } else {
                    a.window()
                })
            },
            pool matches Some(p) ==> final(p)@ == (if r && attack.unwrap().cost_value != 0 {
                PoolView { value: (*p)@.value - attack.unwrap().cost_value, ..(*p)@ }
            } else {
                (*p)@
            }),
    {
        match attack {
            Some(a) => {
                let (_cost_kind, cost_value) = a.get_cost();
                if self.can_afford_attack(cost_value, pool) {
                    self.rotation_degrees = attack_input.attack_direction.to_rotation();
                    a.start();
                    true
                } else {
                    false
                }
            },
            None => false,
        }
    }
}

} // verus!
