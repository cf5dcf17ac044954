//! Hit points with a damage flash and a death report.

use vstd::prelude::*;

verus! {

/// The colour modulation of the creature's visual target.
#[derive(Clone, Copy, Debug, PartialEq, Eq, Structural)]
pub enum Tint {
    /// Plain white: no effect shown.
    Neutral,
    /// Red: the creature was just hurt.
    Damaged,
}

/// A creature's hit points. They may fall below zero; death is reported by
/// the damage call that brings them from above zero to zero or below.
#[derive(Clone, Copy, Debug, PartialEq, Eq, Structural)]
pub struct Health {
    pub health: i64,
    pub tint: Tint,
}

/// Whether damage of `damage` taken at `before` hit points is the blow that
/// kills: it crosses from above zero to zero or below.
pub open spec fn reports_death(before: int, damage: int) -> bool {
    before > 0 && before - damage <= 0
}

/// Death is reported once: after the blow that reported it, further
/// damage (of zero or more) reports nothing.
pub proof fn lemma_death_reported_once(before: int, first: int, second: int)
    requires
        reports_death(before, first),
        second >= 0,
    ensures
        !reports_death(before - first, second),
{
}

/// Damage that leaves hit points above zero reports no death.
pub proof fn lemma_no_death_above_zero(before: int, damage: int)
    requires
        before - damage > 0,
    ensures
        !reports_death(before, damage),
{
}

impl Health {
    /// 100 hit points, no effect shown.
    pub fn new() -> (r: Health)
        ensures
            r.health == 100,
            r.tint == Tint::Neutral,
    {
        Health { health: 100, tint: Tint::Neutral }
    }

    pub fn with_health(health: i64) -> (r: Health)
        ensures
            r.health == health,
            r.tint == Tint::Neutral,
    {
        Health { health, tint: Tint::Neutral }
    }

    pub fn get_health(&self) -> (r: i64)
        ensures
            r == self.health,
    {
        self.health
    }

    /// Subtracts `damage` (no lower clamp), shows the damage flash and
    /// returns whether this call brought the hit points from above zero to
    /// zero or below. The caller plays the hurt animation.
    pub fn take_damage(&mut self, damage: i64) -> (r: bool)
        requires
            i64::MIN <= old(self).health - damage <= i64::MAX,
        ensures
            final(self).health == old(self).health - damage,
            final(self).tint == Tint::Damaged,
            r == reports_death(old(self).health as int, damage as int),
    {
        let was_alive = self.health > 0;
        self.health = self.health - damage;
        self.tint = Tint::Damaged;
        was_alive && self.health <= 0
    }

    /// Called when the hurt animation named `_animation_name` ends: the
    /// damage flash goes away.
    pub fn stop_effect(&mut self, _animation_name: &str)
        ensures
            final(self).health == old(self).health,
            final(self).tint == Tint::Neutral,
    {
        self.tint = Tint::Neutral;
    }
}

} // verus!
