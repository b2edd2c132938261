//! Errors the interaction core can signal. Conditions that would
//! otherwise be programming errors surface here as explicit values, so
//! that no ordinary player input can crash the game.

use vstd::prelude::*;

verus! {

/// Why a play or an effect resolution was refused.
#[derive(Clone, Copy, PartialEq, Eq, Structural, Debug)]
pub enum GameError {
    /// A play was attempted with no selection, or with an index that no
    /// longer names a card.
    InvalidIndex,
    /// The effect kind (or the effect-card play path) has no defined
    /// resolution yet; it must surface rather than silently do nothing.
    UnsupportedEffect,
}

} // verus!
