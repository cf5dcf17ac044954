//! One attack: an activation window during which each body that enters the
//! hit area is struck once, and a declared resource cost.

use std::collections::HashSet;
use vstd::prelude::*;

verus! {

broadcast use vstd::std_specs::hash::group_hash_axioms;

/// The resource pool an attack draws from.
#[derive(Clone, Copy, Debug, PartialEq, Eq, Structural)]
pub enum CostKind {
    Health,
    Stamina,
    Mana,
}

/// The name of the player's pool that pays for a cost kind.
pub open spec fn attribute_name_of(kind: CostKind) -> Seq<char> {
    match kind {
        CostKind::Health => "Health"@,
        CostKind::Stamina => "Stamina"@,
        CostKind::Mana => "Mana"@,
    }
}

impl CostKind {
    pub fn to_attribute_name(&self) -> (r: &'static str)
        ensures
            r@ == attribute_name_of(*self),
    {
        match self {
            CostKind::Health => "Health",
            CostKind::Stamina => "Stamina",
            CostKind::Mana => "Mana",
        }
    }
}

/// The part of an attack's state that decides which bodies it strikes.
pub ghost struct HitWindow {
    pub enabled: bool,
    pub seen: Set<u64>,
}

impl HitWindow {
    /// The window just after `start`: open, nobody struck yet.
    pub open spec fn started(self) -> HitWindow {
        HitWindow { enabled: true, seen: Set::empty() }
    }

    /// The window after the attack animation ended: closed.
    pub open spec fn finished(self) -> HitWindow {
        HitWindow { enabled: false, ..self }
    }

    /// Whether a body entering now is struck.
    pub open spec fn admits(self, body: u64) -> bool {
        self.enabled && !self.seen.contains(body)
    }

    /// The window after `body` entered the hit area.
    pub open spec fn entered(self, body: u64) -> HitWindow {
        if self.admits(body) {
            HitWindow { seen: self.seen.insert(body), ..self }
        } else {
            self
        }
    }
}

/// Within one activation a body is struck at most once, the first time it
/// enters; once the animation has ended nothing is struck; a new activation
/// lets the same body be struck again.
pub proof fn lemma_one_hit_per_activation(w: HitWindow, body: u64)
    ensures
        w.started().admits(body),
        !w.started().entered(body).admits(body),
        !w.finished().admits(body),
        w.started().entered(body).finished().started().admits(body),
{
}

/// A body entering twice within one activation is struck exactly once,
/// whatever other bodies entered in between.
pub proof fn lemma_struck_once(w: HitWindow, body: u64, other: u64)
    ensures
        !w.entered(body).entered(other).admits(body),
{
}

/// A melee or ranged attack.
pub struct Attack {
    /// Whether the activation window is open.
    pub enabled: bool,
    pub name: String,
    /// The animation clip played while the window is open.
    pub animation_name: String,
    /// Damage dealt to each body struck.
    pub damage: i32,
    pub cost_kind: CostKind,
    /// Cost in thousandths of a point; zero means free.
    pub cost_value: u64,
    /// Instance ids of the bodies struck in this activation.
    pub seen_bodies: HashSet<u64>,
}

impl Attack {
    pub open spec fn window(&self) -> HitWindow {
        HitWindow { enabled: self.enabled, seen: self.seen_bodies@ }
    }

    /// The declared settings of two attacks agree.
    pub open spec fn same_settings(&self, other: &Attack) -> bool {
        &&& self.name@ == other.name@
        &&& self.animation_name@ == other.animation_name@
        &&& self.damage == other.damage
        &&& self.cost_kind == other.cost_kind
        &&& self.cost_value == other.cost_value
    }

    /// A free attack named "Attack", playing "default" and dealing 50
    /// damage, with its window closed.
    pub fn new() -> (r: Attack)
        ensures
            r.name@ == "Attack"@,
            r.animation_name@ == "default"@,
            r.damage == 50,
            r.cost_kind == CostKind::Mana,
            r.cost_value == 0,
            r.window() == (HitWindow { enabled: false, seen: Set::empty() }),
    {
        Attack {
            enabled: false,
            name: String::from_str("Attack"),
            animation_name: String::from_str("default"),
            damage: 50,
            cost_kind: CostKind::Mana,
            cost_value: 0,
            seen_bodies: HashSet::new(),
        }
    }

    /// Opens the activation window afresh: nobody has been struck yet. The
    /// caller shows the sprite, plays `animation_name` and enables the hit
    /// area.
    pub fn start(&mut self)
        ensures
            final(self).window() == old(self).window().started(),
            final(self).same_settings(old(self)),
    {
        self.enabled = true;
        self.seen_bodies.clear();
    }

    /// The declared cost, which the caller must check and charge.
    pub fn get_cost(&self) -> (r: (CostKind, u64))
        ensures
            r == (self.cost_kind, self.cost_value),
    {
        (self.cost_kind, self.cost_value)
    }

    /// A body entered the hit area. Returns whether it is struck now: the
    /// window is open and the body was not struck in this activation. The
    /// caller then reports the hit and deals `damage` to the body.
    pub fn on_hurtbox_body_entered(&mut self, body: u64) -> (r: bool)
        ensures
            r == old(self).window().admits(body),
            final(self).window() == old(self).window().entered(body),
            final(self).same_settings(old(self)),
    {
        if !self.enabled || self.seen_bodies.contains(&body) {
            return false;
        }
        self.seen_bodies.insert(body);
        true
    }

    /// The attack animation ended: the window closes. The caller hides the
    /// sprite, disables the hit area and reports that the attack finished.
    pub fn on_sprite_finished(&mut self)
        ensures
            final(self).window() == old(self).window().finished(),
            final(self).same_settings(old(self)),
    {
        self.enabled = false;
    }
}

} // verus!
