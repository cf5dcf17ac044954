//! The spawn manager: owns the enemy and drop containers and decides what a
//! drop request places.

use crate::facing::IVec2;
use vstd::prelude::*;

verus! {

/// A drop to place under the drops container: the host instantiates the
/// drop template and sets these properties on the instance.
#[derive(Clone, Copy, Debug, PartialEq, Eq, Structural)]
pub struct DropPlacement {
    pub value: u64,
    pub global_position: IVec2,
}

#[derive(Clone, Copy, Debug, PartialEq, Eq, Structural)]
pub struct EnemyManager {
    /// Whether an enemy template is configured.
    pub has_enemy_scene: bool,
    /// Whether a drop template is configured.
    pub has_drop_scene: bool,
}

impl EnemyManager {
    /// A manager with no templates configured.
    pub fn new() -> (r: EnemyManager)
        ensures
            !r.has_enemy_scene,
            !r.has_drop_scene,
    {
        EnemyManager { has_enemy_scene: false, has_drop_scene: false }
    }

    /// Reserved for spawning enemies; does nothing yet.
    pub fn spawn_enemy(&mut self)
        ensures
            *final(self) == *old(self),
    {
    }

    /// A request for a drop of `value` at `global_position`: with a drop
    /// template configured, exactly one drop is placed with those
    /// properties; without one, nothing is instantiated.
    pub fn spawn_drop(&self, global_position: IVec2, value: u64) -> (r: Option<DropPlacement>)
        ensures
            r == (if self.has_drop_scene {
                Some(DropPlacement { value, global_position })
            } else {
                None::<DropPlacement>
            }),
    {
        if self.has_drop_scene {
            Some(DropPlacement { value, global_position })
        } else {
            None
        }
    }
}

} // verus!
