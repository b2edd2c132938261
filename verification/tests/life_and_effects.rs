use card_game::card::{CardBasicInfo, CreatureCard};
use card_game::effect::{Effect, EffectType};
use card_game::errors::GameError;
use card_game::life::HasLife;
use card_game::player::Player;

fn goblin() -> CreatureCard {
    CreatureCard::new(
        CardBasicInfo {
            name: "Goblin".to_string(),
            description: "Vilest of creatures.".to_string(),
            cost: 1,
            card_color: 0xF5F5DCFF,
        },
        4,
        4,
    )
}

#[test]
fn creature_starts_at_full_life() {
    let c = goblin();
    assert_eq!(c.get_life_current(), 4);
    assert_eq!(c.get_life_max(), 4);
    assert!(c.is_alive());
}

#[test]
fn heal_is_clamped_at_max() {
    let mut c = goblin();
    c.damage(3);
    assert_eq!(c.get_life_current(), 1);
    c.heal(1);
    assert_eq!(c.get_life_current(), 2);
    c.heal(1000);
    assert_eq!(c.get_life_current(), 4);
}

#[test]
fn heal_never_lowers_life() {
    let mut c = goblin();
    c.damage(2);
    let before = c.get_life_current();
    c.heal(0);
    assert!(c.get_life_current() >= before);
    assert!(c.get_life_current() <= c.get_life_max());
}

#[test]
fn heal_clamp_at_extreme_delta() {
    let mut p = Player::new(1, "Alice".to_string());
    p.damage(40);
    assert_eq!(p.get_life_current(), 60);
    p.heal(u32::MAX);
    assert_eq!(p.get_life_current(), 100);
}

#[test]
fn damage_is_clamped_at_zero() {
    let mut c = goblin();
    c.damage(10);
    assert_eq!(c.get_life_current(), 0);
    assert!(!c.is_alive());
}

#[test]
fn set_life_overwrites_current() {
    let mut c = goblin();
    c.set_life(2);
    assert_eq!(c.get_life_current(), 2);
    assert_eq!(c.get_life_max(), 4);
}

#[test]
fn player_starts_with_full_points() {
    let p = Player::new(7, "Bob".to_string());
    assert_eq!(p.get_life_current(), 100);
    assert_eq!(p.get_life_max(), 100);
    assert!(p.is_alive());
}

#[test]
fn heal_effect_applies_to_target() {
    let mut c = goblin();
    c.damage(3);
    let e = Effect::new(EffectType::Heal, 2);
    assert!(e.affect_target(&mut c).is_ok());
    assert_eq!(c.get_life_current(), 3);
}

#[test]
fn damage_effect_applies_to_player() {
    let mut p = Player::new(2, "Eve".to_string());
    let e = Effect::new(EffectType::Damage, 4);
    assert!(e.affect_target(&mut p).is_ok());
    assert_eq!(p.get_life_current(), 96);
}

#[test]
fn move_effect_is_unsupported() {
    let mut c = goblin();
    let e = Effect::new(EffectType::Move, 1);
    assert_eq!(e.affect_target(&mut c), Err(GameError::UnsupportedEffect));
    assert_eq!(c.get_life_current(), 4);
}

#[test]
fn summon_effect_is_unsupported() {
    let mut p = Player::new(3, "Mallory".to_string());
    let e = Effect::new(EffectType::Summon, 9);
    assert_eq!(e.affect_target(&mut p), Err(GameError::UnsupportedEffect));
    assert_eq!(p.get_life_current(), 100);
}
