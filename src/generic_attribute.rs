//! A named, bounded, optionally regenerating quantity: health, stamina or
//! mana.
//!
//! Amounts are fixed-point numbers counted in thousandths of a point, and
//! regeneration rates in thousandths of a point per second, so that a frame
//! of a few milliseconds still regenerates a fraction of a point. Elapsed
//! time is counted in microseconds.

use vstd::prelude::*;

verus! {

/// Thousandths of a point in one point.
pub const MILLIS_PER_POINT: u64 = 1000;

/// Microseconds in one second.
pub const MICROS_PER_SECOND: u64 = 1_000_000;

/// `v` clamped into `[0, max]`.
pub open spec fn clamped(v: int, max: int) -> int {
    if v < 0 {
        0
    } else if v > max {
        max
    } else {
        v
    }
}

/// What a rate (per second) adds over `elapsed_us` microseconds, truncated
/// towards zero.
pub open spec fn regen_amount(rate: int, elapsed_us: int) -> int {
    if rate >= 0 {
        (rate * elapsed_us) / (MICROS_PER_SECOND as int)
    } else {
        -(((-rate) * elapsed_us) / (MICROS_PER_SECOND as int))
    }
}

/// The state of a pool as the contracts see it.
pub ghost struct PoolView {
    pub name: Seq<char>,
    pub value: int,
    pub max_value: int,
    pub regen: int,
}

/// A resource pool. Its value always lies in `[0, max_value]`.
pub struct GenericAttribute {
    attribute_name: String,
    value: u64,
    max_value: u64,
    regen: i64,
}

impl View for GenericAttribute {
    type V = PoolView;

    closed spec fn view(&self) -> PoolView {
        PoolView {
            name: self.attribute_name@,
            value: self.value as int,
            max_value: self.max_value as int,
            regen: self.regen as int,
        }
    }
}

impl GenericAttribute {
    #[verifier::type_invariant]
    spec fn within_bounds(&self) -> bool {
        self.value <= self.max_value
    }

    /// A full pool of 100 points that does not regenerate.
    pub fn new(attribute_name: String) -> (r: GenericAttribute)
        ensures
            r@ == (PoolView {
                name: attribute_name@,
                value: 100 * MILLIS_PER_POINT as int,
                max_value: 100 * MILLIS_PER_POINT as int,
                regen: 0,
            }),
    {
        GenericAttribute {
            attribute_name,
            value: 100 * MILLIS_PER_POINT,
            max_value: 100 * MILLIS_PER_POINT,
            regen: 0,
        }
    }

    /// A pool with the given value, maximum and regeneration rate.
    pub fn with_values(attribute_name: String, value: u64, max_value: u64, regen: i64) -> (r:
        GenericAttribute)
        requires
            value <= max_value,
        ensures
            r@ == (PoolView {
                name: attribute_name@,
                value: value as int,
                max_value: max_value as int,
                regen: regen as int,
            }),
    {
        GenericAttribute { attribute_name, value, max_value, regen }
    }

    pub fn attribute_name(&self) -> (r: &str)
        ensures
            r@ == self@.name,
    {
        self.attribute_name.as_str()
    }

    /// The current value, never above the maximum.
    pub fn get_value(&self) -> (r: u64)
        ensures
            r == self@.value,
            r <= self@.max_value,
    {
        proof {
            use_type_invariant(self);
        }
        self.value
    }

    pub fn get_max_value(&self) -> (r: u64)
        ensures
            r == self@.max_value,
    {
        self.max_value
    }

    pub fn get_regen(&self) -> (r: i64)
        ensures
            r == self@.regen,
    {
        self.regen
    }

    /// Sets the value to `target` clamped into `[0, max_value]`.
    fn settle(&mut self, target: i128)
        ensures
            final(self)@ == (PoolView { value: clamped(target as int, old(self)@.max_value), ..old(self)@ }),
    {
        if target < 0 {
            self.value = 0;
        } else if target > self.max_value as i128 {
            self.value = self.max_value;
        } else {
            self.value = target as u64;
        }
    }

    /// Per-frame update: adds the regeneration of `elapsed_us` microseconds,
    /// clamped into `[0, max_value]`. A pool whose rate is zero is left as
    /// it is.
    pub fn process(&mut self, elapsed_us: u64)
        ensures
            final(self)@ == (PoolView {
                value: clamped(
                    old(self)@.value + regen_amount(old(self)@.regen, elapsed_us as int),
                    old(self)@.max_value,
                ),
                ..old(self)@
            }),
    {
        proof {
            use_type_invariant(&*self);
        }
        if self.regen != 0 {
            let rate: u128 = if self.regen < 0 {
                (-(self.regen as i128)) as u128
            } else {
                self.regen as u128
            };
            assert(rate * (elapsed_us as u128) <= 0x8000_0000_0000_0000 * 0xffff_ffff_ffff_ffff)
                by (nonlinear_arith)
                requires
                    rate <= 0x8000_0000_0000_0000,
                    elapsed_us <= 0xffff_ffff_ffff_ffff,
            ;
            let amount: u128 = rate * (elapsed_us as u128) / (MICROS_PER_SECOND as u128);
            assert(amount <= rate * (elapsed_us as u128)) by (nonlinear_arith)
                requires
                    amount == rate * (elapsed_us as u128) / 1_000_000,
            ;
            let target: i128 = if self.regen < 0 {
                self.value as i128 - amount as i128
            } else {
                self.value as i128 + amount as i128
            };
            self.settle(target);
        } else {
            assert(regen_amount(0, elapsed_us as int) == 0);
        }
    }

    /// Adds `delta`, positive or negative, clamped into `[0, max_value]`.
    pub fn change(&mut self, delta: i64)
        ensures
            final(self)@ == (PoolView {
                value: clamped(old(self)@.value + delta, old(self)@.max_value),
                ..old(self)@
            }),
    {
        proof {
            use_type_invariant(&*self);
        }
        self.settle(self.value as i128 + delta as i128);
    }

    /// Spends `amount` if the pool holds that much; otherwise refuses the
    /// whole request and changes nothing.
    pub fn take(&mut self, amount: u64) -> (r: bool)
        ensures
            r == (amount <= old(self)@.value),
            r ==> final(self)@ == (PoolView { value: old(self)@.value - amount, ..old(self)@ }),
            !r ==> final(self)@ == old(self)@,
    {
        proof {
            use_type_invariant(&*self);
        }
        if amount > self.value {
            false
        } else {
            self.value = self.value - amount;
            true
        }
    }
}

} // verus!
