//! Typed card effects and their resolution against any entity with life.

use vstd::prelude::*;

use crate::card::CreatureCard;
use crate::errors::GameError;
use crate::life::{damaged, healed, HasLife};
use crate::player::Player;

verus! {

/// The kinds of effect a card can carry.
#[derive(Clone, Copy, PartialEq, Eq, Structural, Debug)]
pub enum EffectType {
    Heal,
    Damage,
    Move,
    Summon,
}

/// What an effect can be aimed at: a creature on the board or a player.
pub enum Target {
    Creature(CreatureCard),
    Player(Player),
}

/// An effect bound to the target it will be applied to.
#[allow(dead_code)]
pub struct TargettedCardEffect {
    target: Target,
    nb: u32,
}

/// An effect as a card carries it: a kind and a magnitude (amount of
/// damage, healing, and so on).
pub struct Effect {
    pub effect_type: EffectType,
    pub nb: u32,
}

impl Effect {
    pub fn new(effect_type: EffectType, nb: u32) -> (r: Effect)
        ensures
            r.effect_type == effect_type,
            r.nb == nb,
    {
        Effect { effect_type, nb }
    }

    /// Apply this effect to a target with life. Heal and damage resolve by
    /// the clamped rules of `HasLife`; the Move and Summon kinds have no
    /// target-selection protocol yet, so they fail explicitly and leave
    /// the target untouched.
    pub fn affect_target<T: HasLife>(&self, target: &mut T) -> (r: Result<(), GameError>)
        ensures
            r is Ok <==> (self.effect_type is Heal || self.effect_type is Damage),
            r is Err ==> r == Err::<(), GameError>(GameError::UnsupportedEffect),
            self.effect_type is Heal ==> final(target).spec_life_current() == healed(
                old(target).spec_life_current() as int,
                old(target).spec_life_max() as int,
                self.nb as int,
            ),
            self.effect_type is Damage ==> final(target).spec_life_current() == damaged(
                old(target).spec_life_current() as int,
                self.nb as int,
            ),
            final(target).spec_life_max() == old(target).spec_life_max(),
            r is Err ==> final(target).spec_life_current() == old(target).spec_life_current(),
    {
        match self.effect_type {
            EffectType::Heal => {
                target.heal(self.nb);
                Ok(())
            },
            EffectType::Damage => {
                target.damage(self.nb);
                Ok(())
            },
            EffectType::Move => Err(GameError::UnsupportedEffect),
            EffectType::Summon => Err(GameError::UnsupportedEffect),
        }
    }
}

} // verus!
