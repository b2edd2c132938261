use vstd::prelude::*;

pub mod card;
pub mod deck;
pub mod effect;
pub mod errors;
pub mod formatting;
pub mod geometry;
pub mod hand;
pub mod keymapping;
pub mod isometric_manipulation;
pub mod life;
pub mod player;
pub mod world;

verus! {

} // verus!
