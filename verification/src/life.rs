//! The shared capability for any entity with bounded hit points: creatures
//! and the player both implement it, with no common base type.

use vstd::prelude::*;

verus! {

/// Life total after healing by `delta`: the sum clamped at the maximum.
pub open spec fn healed(current: int, max: int, delta: int) -> int {
    if current + delta >= max {
        max
    } else {
        current + delta
    }
}

/// Life total after taking `delta` damage. The subtraction is clamped at
/// zero: an unsigned life total cannot go below nothing, and a blow past
/// that point leaves the entity at zero, dead. Callers that care whether
/// the entity survived ask `is_alive` afterwards.
pub open spec fn damaged(current: int, delta: int) -> int {
    if delta >= current {
        0
    } else {
        current - delta
    }
}

/// An entity with bounded hit points. `heal` and `damage` are the only
/// mutations the game applies; `set_life` is the primitive they go
/// through.
pub trait HasLife {
    /// Current hit points.
    spec fn spec_life_current(&self) -> u32;

    /// Maximum hit points.
    spec fn spec_life_max(&self) -> u32;

    /// An entity is alive exactly while it has hit points left.
    fn is_alive(&self) -> (r: bool)
        ensures
            r == (self.spec_life_current() > 0),
    ;

    fn get_life_current(&self) -> (r: u32)
        ensures
            r == self.spec_life_current(),
    ;

    fn get_life_max(&self) -> (r: u32)
        ensures
            r == self.spec_life_max(),
    ;

    /// Overwrite the current life total; the maximum is untouched.
    fn set_life(&mut self, delta: u32)
        ensures
            final(self).spec_life_current() == delta,
            final(self).spec_life_max() == old(self).spec_life_max(),
    ;

    /// Heal by `delta`, clamped at the maximum. Total: no failure mode,
    /// and the widened sum cannot overflow.
    fn heal(&mut self, delta: u32)
        ensures
            final(self).spec_life_current() == healed(
                old(self).spec_life_current() as int,
                old(self).spec_life_max() as int,
                delta as int,
            ),
            final(self).spec_life_max() == old(self).spec_life_max(),
    {
        let current = self.get_life_current();
        let max = self.get_life_max();
        let sum: u64 = current as u64 + delta as u64;
        let new_life: u32 = if sum >= max as u64 {
            max
        } else {
            sum as u32
        };
        self.set_life(new_life);
    }

    /// Take `delta` damage, clamped at zero (see `damaged`).
    fn damage(&mut self, delta: u32)
        ensures
            final(self).spec_life_current() == damaged(
                old(self).spec_life_current() as int,
                delta as int,
            ),
            final(self).spec_life_max() == old(self).spec_life_max(),
    {
        let current = self.get_life_current();
        let new_life: u32 = if delta >= current {
            0
        } else {
            current - delta
        };
        self.set_life(new_life);
    }
}

/// The heal clamp law: for any life total within its maximum and any
/// healing amount, healing never exceeds the maximum and never lowers the
/// total.
pub proof fn lemma_heal_clamp(current: u32, max: u32, delta: u32)
    requires
        current <= max,
    ensures
        healed(current as int, max as int, delta as int) <= max,
        healed(current as int, max as int, delta as int) >= current,
{
}

} // verus!
