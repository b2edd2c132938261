use card_game::card::{card_layout, CardBasicInfo, CreatureCard};
use card_game::formatting::format_digit;
use card_game::geometry::Rect;
use card_game::isometric_manipulation::WorldPos;
use card_game::world::World;

#[test]
fn world_reports_its_extent() {
    let w = World::new(16, 12);
    assert_eq!(w.width, 16);
    assert_eq!(w.height, 12);
}

#[test]
fn cursor_at_world_origin_is_on_the_map() {
    let w = World::new(16, 16);
    assert!(w.cursor_within_map(WorldPos { x: 0, y: 0 }));
    let cell = w.cursor_position(WorldPos { x: 0, y: 0 });
    assert_eq!((cell.x, cell.y), (0, 0));
}

#[test]
fn cursor_far_away_is_off_the_map() {
    let w = World::new(16, 16);
    assert!(!w.cursor_within_map(WorldPos { x: -5000, y: 0 }));
    assert!(!w.cursor_within_map(WorldPos { x: 0, y: 10000 }));
}

#[test]
fn cursor_on_a_mid_cell() {
    let w = World::new(16, 16);
    // The centre of cell (2, 3) projects to (-32, 40) at tile 32x32.
    let cell = w.cursor_position(WorldPos { x: -32, y: 40 });
    assert_eq!((cell.x, cell.y), (2, 3));
    assert!(w.cursor_within_map(WorldPos { x: -32, y: 40 }));
}

#[test]
fn format_digit_zero_is_three_zeros() {
    assert_eq!(format_digit(0, 3), "000");
    assert_eq!(format_digit(0, 5), "000");
}

#[test]
fn format_digit_pads_to_width() {
    assert_eq!(format_digit(7, 3), "007");
    assert_eq!(format_digit(42, 3), "042");
    assert_eq!(format_digit(114, 3), "114");
    assert_eq!(format_digit(42, 5), "00042");
}

#[test]
fn card_layout_rows_are_ordered() {
    // The concrete 160x180 card at rest, with the default font.
    let rect = Rect { x: 48, y: 540, w: 160, h: 180 };
    let l = card_layout(rect, 16);
    assert_eq!((l.name_pos.x, l.name_pos.y), (48 + 8, 540 + 16));
    assert_eq!((l.cost_badge_pos.x, l.cost_badge_pos.y), (48 + 160 - 17, 540 + 13));
    assert_eq!((l.cost_text_pos.x, l.cost_text_pos.y), (48 + 160 - 20, 540 + 16));
    assert_eq!((l.portrait.x, l.portrait.y, l.portrait.w, l.portrait.h), (54, 564, 148, 60));
    assert_eq!(l.stat_pos.y, 540 + 90);
    assert_eq!(l.info_pos.y, 540 + 108);
    assert_eq!(l.description_pos.y, 540 + 126);
    assert_eq!(l.description_font_size, 9);
    // Fixed relative order: name, portrait, then the body rows.
    assert!(l.name_pos.y <= l.portrait.y);
    assert!(l.portrait.y + l.portrait.h <= l.stat_pos.y);
    assert!(l.stat_pos.y < l.info_pos.y);
    assert!(l.info_pos.y < l.description_pos.y);
    assert!(l.description_pos.y < rect.y + rect.h);
}

#[test]
fn creature_card_fields() {
    let c = CreatureCard::new(
        CardBasicInfo {
            name: "Goblin".to_string(),
            description: "d".to_string(),
            cost: 1,
            card_color: 0,
        },
        9,
        5,
    );
    assert_eq!(c.hp_current, 9);
    assert_eq!(c.hp_max, 9);
    assert_eq!(c.movement, 5);
    assert_eq!(c.basic_info.cost, 1);
}
