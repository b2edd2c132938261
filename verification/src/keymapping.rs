//! The game-rule part of input handling: what a press of the select
//! button does to the hand and the roster, given where the cursor is.
//! Camera motion and settings panels are the platform layer's concern
//! and stay outside this core.

use vstd::prelude::*;

use crate::card::{Card, CreatureCard};
use crate::errors::GameError;
use crate::hand::{spec_select, Hand};
use crate::isometric_manipulation::{
    world_to_map_x, world_to_map_y, GridCell, WorldPos, TILE_SIZE_X, TILE_SIZE_Y, WORLD_LIMIT,
};
use crate::world::World;

verus! {

/// Apply one frame of game input. On a press with a card hovered, the
/// selection toggles; then — in the same frame, with the selection as it
/// now stands — a press with a selection and the cursor on the map plays
/// the selected card at the cursor's cell. Playing an effect card
/// surfaces `UnsupportedEffect` and leaves hand and roster untouched.
pub fn apply_input(
    hand: &mut Hand,
    creatures: &mut Vec<(CreatureCard, GridCell)>,
    world: &World,
    cursor_world: WorldPos,
    mouse_pressed: bool,
) -> (r: Result<(), GameError>)
    requires
        old(hand).wf(),
        -WORLD_LIMIT <= cursor_world.x <= WORLD_LIMIT,
        -WORLD_LIMIT <= cursor_world.y <= WORLD_LIMIT,
    ensures
        final(hand).wf(),
        final(hand).hovered_scale == old(hand).hovered_scale,
        final(hand).card_dimensions == old(hand).card_dimensions,
        final(hand).screen_size == old(hand).screen_size,
        ({
            let sel = if mouse_pressed && old(hand).hovered_card is Some {
                spec_select(old(hand).selected_card, old(hand).hovered_card)
            } else {
                old(hand).selected_card
            };
            let cx = world_to_map_x(
                TILE_SIZE_X as int,
                TILE_SIZE_Y as int,
                cursor_world.x as int,
                cursor_world.y as int,
            );
            let cy = world_to_map_y(
                TILE_SIZE_X as int,
                TILE_SIZE_Y as int,
                cursor_world.x as int,
                cursor_world.y as int,
            );
            let plays = mouse_pressed && sel is Some && world.spec_cell_within(cx, cy);
            &&& (!plays ==> {
                &&& r is Ok
                &&& final(hand).selected_card == sel
                &&& final(hand).hovered_card == old(hand).hovered_card
                &&& final(hand).card_in_hands@ =~= old(hand).card_in_hands@
                &&& *final(creatures) == *old(creatures)
            })
            &&& (plays ==> {
                let k = sel->0 as int;
                &&& (old(hand).card_in_hands@[k].card is Creature ==> {
                    &&& r is Ok
                    &&& final(hand).card_in_hands@ =~= old(hand).card_in_hands@.remove(k)
                    &&& final(hand).selected_card is None
                    &&& final(hand).hovered_card is None
                    &&& (old(hand).card_in_hands@[k].card matches Card::Creature(c)
                        ==> final(creatures)@ =~= old(creatures)@.push(
                        (c, GridCell { x: cx as i64, y: cy as i64 }),
                    ))
                })
                &&& (old(hand).card_in_hands@[k].card is Effect ==> {
                    &&& r == Err::<(), GameError>(GameError::UnsupportedEffect)
                    &&& final(hand).selected_card == sel
                    &&& final(hand).hovered_card == old(hand).hovered_card
                    &&& final(hand).card_in_hands@ =~= old(hand).card_in_hands@
                    &&& *final(creatures) == *old(creatures)
                })
            })
        }),
{
    if mouse_pressed && hand.card_is_hovered() {
        hand.select_hovered_card();
    }
    if hand.card_is_selected() && mouse_pressed && world.cursor_within_map(cursor_world) {
        let pos = world.cursor_position(cursor_world);
        hand.play_card(creatures, pos)
    } else {
        Ok(())
    }
}

} // verus!
