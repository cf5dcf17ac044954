//! An enemy that pursues the player while alive and leaves a drop when it
//! dies.

use crate::health::{reports_death, Health, Tint};
use vstd::prelude::*;

verus! {

/// The value of the drop an enemy leaves when it dies.
pub const DEATH_DROP_VALUE: u64 = 10;

/// What the enemy is doing, as shown to the editor.
#[derive(Clone, Copy, Debug, PartialEq, Eq, Structural)]
pub enum ActionState {
    Idle,
    Walking,
    Dead,
}

impl Default for ActionState {
    fn default() -> (r: ActionState)
        ensures
            r == ActionState::Walking,
    {
        ActionState::Walking
    }
}

/// The orders that follow an enemy's death. The host sets the death
/// condition of the animation tree, disables the collision shape by a
/// deferred call, starts the despawn timer if there is one, and asks the
/// level for a drop of `drop_value` at the enemy's position.
#[derive(Clone, Copy, Debug, PartialEq, Eq, Structural)]
pub struct Death {
    pub drop_value: u64,
}

/// An enemy's own state. Its hit points live in its health component,
/// which is handed to `take_damage`.
pub struct Enemy {
    pub action_state: ActionState,
    /// Pursuit speed, in distance units per second.
    pub speed: u32,
    pub alive: bool,
}

impl Enemy {
    /// A living, walking enemy with a speed of 10.
    pub fn new() -> (r: Enemy)
        ensures
            r.action_state == ActionState::Walking,
            r.speed == 10,
            r.alive,
    {
        Enemy {
            action_state: ActionState::default(),
            speed: 10,
            alive: true,
        }
    }

    /// The physics step's decision: the speed at which to move towards the
    /// next waypoint to the player, or `None` once the enemy is dead.
    pub fn physics_process(&self) -> (r: Option<u32>)
        ensures
            r == (if self.alive { Some(self.speed) } else { None::<u32> }),
    {
        if self.alive {
            Some(self.speed)
        } else {
            None
        }
    }

    /// Passes the damage on to the enemy's health component; if that
    /// reports a death, the enemy dies and the orders that follow are
    /// returned.
    pub fn take_damage(&mut self, health: &mut Health, damage: i64) -> (r: Option<Death>)
        requires
            i64::MIN <= old(health).health - damage <= i64::MAX,
        ensures
            final(health).health == old(health).health - damage,
            final(health).tint == Tint::Damaged,
            final(self).speed == old(self).speed,
            reports_death(old(health).health as int, damage as int) ==> {
                &&& r == Some(Death { drop_value: DEATH_DROP_VALUE })
                &&& !final(self).alive
                &&& final(self).action_state == ActionState::Dead
            },
            !reports_death(old(health).health as int, damage as int) ==> {
                &&& r.is_none()
                &&& final(self).alive == old(self).alive
                &&& final(self).action_state == old(self).action_state
            },
    {
        let died = health.take_damage(damage);
        if died {
            Some(self.die())
        } else {
            None
        }
    }

    fn die(&mut self) -> (r: Death)
        ensures
            !final(self).alive,
            final(self).action_state == ActionState::Dead,
            final(self).speed == old(self).speed,
            r.drop_value == DEATH_DROP_VALUE,
    {
        self.alive = false;
        self.action_state = ActionState::Dead;
        Death { drop_value: DEATH_DROP_VALUE }
    }
}

} // verus!
