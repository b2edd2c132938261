//! The end-to-end interaction scenario: an 800x600 viewport, three cards,
//! hover, selection toggling, and the layout numbers that fall out.

use card_game::card::{Card, CardBasicInfo, CreatureCard, EffectCard};
use card_game::effect::{Effect, EffectType};
use card_game::geometry::Point;
use card_game::hand::Hand;
use card_game::isometric_manipulation::WorldPos;
use card_game::keymapping::apply_input;
use card_game::isometric_manipulation::GridCell;
use card_game::world::World;

fn basic(name: &str, cost: u32, color: u32) -> CardBasicInfo {
    CardBasicInfo {
        name: name.to_string(),
        description: String::new(),
        cost,
        card_color: color,
    }
}

fn three_card_hand() -> Hand {
    let mut hand = Hand::new(1400, (0, 0));
    hand.add_card(Card::Creature(CreatureCard::new(basic("Goblin", 1, 0xF5F5DCFF), 4, 4)));
    hand.add_card(Card::Effect(EffectCard::new(
        basic("Fire Ball", 2, 0xFF0000FF),
        Effect::new(EffectType::Damage, 4),
    )));
    hand.add_card(Card::Creature(CreatureCard::new(
        basic("Monkey Knight", 1, 0xF5F5DCFF),
        4,
        4,
    )));
    hand
}

#[test]
fn viewport_800_by_600_layout_numbers() {
    let mut hand = three_card_hand();
    hand.display_hand(Point { x: 0, y: 0 }, 800, 600);
    assert_eq!(hand.card_dimensions, (160, 180));
    assert_eq!(hand.card_in_hands[0].base_dimensions.x, 48);
    assert_eq!(hand.card_in_hands[1].base_dimensions.x, 96);
    assert_eq!(hand.card_in_hands[2].base_dimensions.x, 144);
    for c in &hand.card_in_hands {
        assert_eq!(c.base_dimensions.w, 160);
        assert_eq!(c.base_dimensions.h, 180);
        assert_eq!(c.base_dimensions.y, 540);
    }
    // Inner cards yield to their right neighbour; the last card is
    // hoverable across its whole width.
    assert_eq!(hand.card_in_hands[0].neighbour_start, 96);
    assert_eq!(hand.card_in_hands[1].neighbour_start, 144);
    assert_eq!(hand.card_in_hands[2].neighbour_start, 144 + 160);
}

#[test]
fn hover_select_and_toggle_back() {
    let mut hand = three_card_hand();
    // Pointer on the Goblin card's rectangle (its hover zone).
    hand.display_hand(Point { x: 50, y: 560 }, 800, 600);
    assert_eq!(hand.hovered_card, Some(0));
    hand.select_hovered_card();
    assert_eq!(hand.selected_card, Some(0));
    hand.select_hovered_card();
    assert_eq!(hand.selected_card, None);
}

#[test]
fn press_selects_then_plays_at_the_cursor_cell() {
    let mut hand = three_card_hand();
    let mut creatures: Vec<(CreatureCard, GridCell)> = Vec::new();
    let world = World::new(16, 16);
    hand.display_hand(Point { x: 50, y: 560 }, 800, 600);
    assert_eq!(hand.hovered_card, Some(0));
    // One press: the hovered Goblin becomes selected, and since the
    // cursor's world position lies on the map, the same press plays it
    // there in the same frame.
    let r = apply_input(&mut hand, &mut creatures, &world, WorldPos { x: 0, y: 0 }, true);
    assert!(r.is_ok());
    assert_eq!(hand.card_in_hands.len(), 2);
    assert_eq!(hand.selected_card, None);
    assert_eq!(creatures.len(), 1);
    assert_eq!(creatures[0].0.basic_info.name, "Goblin");
    assert_eq!(creatures[0].1, GridCell { x: 0, y: 0 });
}

#[test]
fn unpressed_frame_changes_nothing() {
    let mut hand = three_card_hand();
    let mut creatures: Vec<(CreatureCard, GridCell)> = Vec::new();
    let world = World::new(16, 16);
    hand.display_hand(Point { x: 50, y: 560 }, 800, 600);
    let r = apply_input(&mut hand, &mut creatures, &world, WorldPos { x: 0, y: 0 }, false);
    assert!(r.is_ok());
    assert_eq!(hand.card_in_hands.len(), 3);
    assert_eq!(hand.selected_card, None);
    assert_eq!(creatures.len(), 0);
}
