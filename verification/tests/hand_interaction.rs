use card_game::card::{Card, CardBasicInfo, CreatureCard, EffectCard};
use card_game::effect::{Effect, EffectType};
use card_game::errors::GameError;
use card_game::geometry::Point;
use card_game::hand::Hand;
use card_game::isometric_manipulation::GridCell;

fn basic(name: &str, cost: u32, color: u32) -> CardBasicInfo {
    CardBasicInfo {
        name: name.to_string(),
        description: String::new(),
        cost,
        card_color: color,
    }
}

fn goblin() -> Card {
    Card::Creature(CreatureCard::new(basic("Goblin", 1, 0xF5F5DCFF), 4, 4))
}

fn fire_ball() -> Card {
    Card::Effect(EffectCard::new(
        basic("Fire Ball", 2, 0xFF0000FF),
        Effect::new(EffectType::Damage, 4),
    ))
}

fn monkey_knight() -> Card {
    Card::Creature(CreatureCard::new(basic("Monkey Knight", 1, 0xF5F5DCFF), 4, 4))
}

fn full_hand() -> Hand {
    let mut hand = Hand::new(1400, (0, 0));
    hand.add_card(goblin());
    hand.add_card(fire_ball());
    hand.add_card(monkey_knight());
    hand
}

#[test]
fn new_hand_is_empty_and_idle() {
    let hand = Hand::new(1400, (10, 20));
    assert_eq!(hand.card_in_hands.len(), 0);
    assert!(!hand.card_is_hovered());
    assert!(!hand.card_is_selected());
}

#[test]
fn selecting_with_nothing_hovered_keeps_no_selection() {
    let mut hand = full_hand();
    hand.select_hovered_card();
    assert!(!hand.card_is_selected());
}

#[test]
fn pointer_away_from_cards_hovers_nothing() {
    let mut hand = full_hand();
    hand.display_hand(Point { x: 400, y: 100 }, 800, 600);
    assert_eq!(hand.hovered_card, None);
    for c in &hand.card_in_hands {
        assert_eq!(c.scale, 1000);
    }
}

#[test]
fn pointer_in_zone_hovers_exactly_one_card() {
    let mut hand = full_hand();
    // Second card's hover zone spans x in [96, 144).
    hand.display_hand(Point { x: 100, y: 560 }, 800, 600);
    assert_eq!(hand.hovered_card, Some(1));
    let lifted = hand.card_in_hands.iter().filter(|c| c.scale > 1000).count();
    assert_eq!(lifted, 1);
}

#[test]
fn moving_pointer_moves_the_single_hover() {
    let mut hand = full_hand();
    hand.display_hand(Point { x: 100, y: 560 }, 800, 600);
    assert_eq!(hand.hovered_card, Some(1));
    // Next frame the pointer sits on the first card: the old hover falls
    // back to rest within the frame, so still at most one card is lifted.
    hand.display_hand(Point { x: 50, y: 560 }, 800, 600);
    assert_eq!(hand.hovered_card, Some(0));
    let lifted = hand.card_in_hands.iter().filter(|c| c.scale > 1000).count();
    assert_eq!(lifted, 1);
}

#[test]
fn hover_scale_eases_in_and_out() {
    let mut hand = full_hand();
    hand.display_hand(Point { x: 50, y: 560 }, 800, 600);
    // One frame of the ease-in: 1000 + (1400 - 1000) / 5.
    assert_eq!(hand.card_in_hands[0].scale, 1080);
    hand.display_hand(Point { x: 50, y: 560 }, 800, 600);
    assert_eq!(hand.card_in_hands[0].scale, 1144);
    hand.display_hand(Point { x: 400, y: 100 }, 800, 600);
    assert_eq!(hand.card_in_hands[0].scale, 1000);
}

#[test]
fn playing_a_creature_shrinks_the_hand() {
    let mut hand = full_hand();
    let mut creatures: Vec<(CreatureCard, GridCell)> = Vec::new();
    hand.display_hand(Point { x: 50, y: 560 }, 800, 600);
    hand.select_hovered_card();
    assert_eq!(hand.selected_card, Some(0));
    let r = hand.play_card(&mut creatures, GridCell { x: 2, y: 3 });
    assert!(r.is_ok());
    assert_eq!(hand.card_in_hands.len(), 2);
    assert_eq!(hand.selected_card, None);
    assert_eq!(hand.card_in_hands[0].card.get_name(), "Fire Ball");
    assert_eq!(hand.card_in_hands[1].card.get_name(), "Monkey Knight");
    assert_eq!(creatures.len(), 1);
    assert_eq!(creatures[0].0.basic_info.name, "Goblin");
    assert_eq!(creatures[0].1, GridCell { x: 2, y: 3 });
}

#[test]
fn playing_an_effect_card_is_unsupported_and_harmless() {
    let mut hand = full_hand();
    let mut creatures: Vec<(CreatureCard, GridCell)> = Vec::new();
    hand.display_hand(Point { x: 100, y: 560 }, 800, 600);
    hand.select_hovered_card();
    assert_eq!(hand.selected_card, Some(1));
    let r = hand.play_card(&mut creatures, GridCell { x: 0, y: 0 });
    assert_eq!(r, Err(GameError::UnsupportedEffect));
    assert_eq!(hand.card_in_hands.len(), 3);
    assert_eq!(creatures.len(), 0);
}

#[test]
fn playing_without_a_selection_fails_loudly() {
    let mut hand = full_hand();
    let mut creatures: Vec<(CreatureCard, GridCell)> = Vec::new();
    let r = hand.play_card(&mut creatures, GridCell { x: 0, y: 0 });
    assert_eq!(r, Err(GameError::InvalidIndex));
    assert_eq!(hand.card_in_hands.len(), 3);
    assert_eq!(creatures.len(), 0);
}
