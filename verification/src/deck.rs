//! A player's deck: the cards not yet played and those already played.

use vstd::prelude::*;

use crate::card::Card;

verus! {

/// All of the cards a player brought to the game, split by whether they
/// have been played.
#[allow(dead_code)]
pub struct Deck {
    deck_id: u32,
    deck_size: u32,
    cards_unplayed: Vec<Card>,
    cards_played: Vec<Card>,
}

} // verus!
