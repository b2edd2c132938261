//! The player: identity, decks, hit points and action points. Life is
//! mutated only through the `HasLife` capability.

use vstd::prelude::*;

use crate::deck::Deck;
use crate::life::HasLife;

verus! {

/// A player of the game. Hit points and action points start at their
/// maxima.
#[allow(dead_code)]
pub struct Player {
    id_player: u32,
    name: String,
    decks: Vec<Deck>,
    hp_max: u32,
    hp_current: u32,
    ap_max: u32,
    ap_current: u32,
}

/// Hit points a new player starts with.
pub const PLAYER_START_HP: u32 = 100;

/// Action points a new player starts with.
pub const PLAYER_START_AP: u32 = 10;

impl Player {
    /// The player's action points, current and maximum.
    pub closed spec fn spec_ap(&self) -> (int, int) {
        (self.ap_current as int, self.ap_max as int)
    }

    /// A player's life never exceeds its maximum.
    pub open spec fn wf(&self) -> bool {
        self.spec_life_current() <= self.spec_life_max()
    }

    /// A fresh player with full hit points and action points and no decks
    /// yet.
    pub fn new(id_player: u32, name: String) -> (r: Player)
        ensures
            r.spec_life_current() == PLAYER_START_HP,
            r.spec_life_max() == PLAYER_START_HP,
            r.spec_ap() == (PLAYER_START_AP as int, PLAYER_START_AP as int),
            r.wf(),
    {
        Player {
            id_player,
            name,
            decks: Vec::new(),
            hp_max: PLAYER_START_HP,
            hp_current: PLAYER_START_HP,
            ap_max: PLAYER_START_AP,
            ap_current: PLAYER_START_AP,
        }
    }
}

impl HasLife for Player {
    closed spec fn spec_life_current(&self) -> u32 {
        self.hp_current
    }

    closed spec fn spec_life_max(&self) -> u32 {
        self.hp_max
    }

    fn is_alive(&self) -> (r: bool) {
        self.hp_current > 0
    }

    fn get_life_current(&self) -> (r: u32) {
        self.hp_current
    }

    fn get_life_max(&self) -> (r: u32) {
        self.hp_max
    }

    fn set_life(&mut self, delta: u32) {
        self.hp_current = delta;
    }
}

} // verus!
