//! The card model: the tagged union of creature and effect cards, the
//! shared basic information, and the per-card presentation state used by
//! the hand's hover animation.

use vstd::prelude::*;

use crate::effect::Effect;
use crate::geometry::{trunc_div, trunc_div_i64, Point, Rect};
use crate::life::HasLife;
use vstd::arithmetic::div_mod::{lemma_div_by_multiple, lemma_div_is_ordered};

verus! {

/// The fixed-point scale unit: a scale is measured in thousandths, and
/// `SCALE_ONE` thousandths is the resting scale.
pub const SCALE_ONE: u32 = 1000;

/// Ease-in speed, in thousandths per frame: each hovered frame closes a
/// fifth of the gap to the hovered scale.
pub const HOVER_EASE_IN: u32 = 200;

/// Ease-out speed, in thousandths per frame: a card that loses the
/// pointer falls back linearly by half the resting scale each frame.
pub const HOVER_EASE_OUT: u32 = 500;

/// Largest hovered scale a card accepts: the linear ease-out must be able
/// to return a lifted card to rest within a single frame, which is what
/// keeps two cards from being lifted at once when the pointer moves.
pub const MAX_HOVERED_SCALE: u32 = 1500;

/// Bound on card-layout coordinates. Far below the general screen
/// coordinate limit, so every product with a scale stays inside `i64`.
pub const CARD_COORD_LIMIT: i64 = 0x1000_0000_0000;

/// What every card shows regardless of kind: a display name, a free-text
/// description, an action-point cost, and a colour tag (packed RGBA) that
/// only the renderer interprets.
pub struct CardBasicInfo {
    pub name: String,
    pub description: String,
    pub cost: u32,
    pub card_color: u32,
}

/// A creature card: life bounded by a maximum, and a movement budget.
pub struct CreatureCard {
    pub basic_info: CardBasicInfo,
    pub hp_current: u32,
    pub hp_max: u32,
    /// Total movement the creature can do, in grid steps.
    pub movement: u32,
}

impl CreatureCard {
    /// A creature's life never exceeds its maximum.
    pub open spec fn wf(&self) -> bool {
        self.hp_current <= self.hp_max
    }

    /// A new creature starts at full life.
    pub fn new(basic_info: CardBasicInfo, hp_max: u32, movement: u32) -> (r: CreatureCard)
        ensures
            r.basic_info == basic_info,
            r.hp_current == hp_max,
            r.hp_max == hp_max,
            r.movement == movement,
            r.wf(),
    {
        CreatureCard { basic_info, hp_current: hp_max, hp_max, movement }
    }
}

impl HasLife for CreatureCard {
    closed spec fn spec_life_current(&self) -> u32 {
        self.hp_current
    }

    closed spec fn spec_life_max(&self) -> u32 {
        self.hp_max
    }

    fn is_alive(&self) -> (r: bool) {
        self.hp_current > 0
    }

    fn get_life_current(&self) -> (r: u32) {
        self.hp_current
    }

    fn get_life_max(&self) -> (r: u32) {
        self.hp_max
    }

    fn set_life(&mut self, delta: u32) {
        self.hp_current = delta;
    }
}

/// A card that carries an effect instead of a creature.
pub struct EffectCard {
    pub basic_info: CardBasicInfo,
    pub effect: Effect,
}

impl EffectCard {
    pub fn new(basic_info: CardBasicInfo, effect: Effect) -> (r: EffectCard)
        ensures
            r.basic_info == basic_info,
            r.effect == effect,
    {
        EffectCard { basic_info, effect }
    }
}

/// A card is either a creature or an effect; exactly these two kinds
/// exist, and every dispatch is an exhaustive match.
pub enum Card {
    Creature(CreatureCard),
    Effect(EffectCard),
}

impl Card {
    /// The shared basic information, whichever the variant.
    pub open spec fn spec_basic_info(&self) -> CardBasicInfo {
        match self {
            Card::Creature(creature) => creature.basic_info,
            Card::Effect(effect) => effect.basic_info,
        }
    }

    /// The display name, whichever the variant.
    pub fn get_name(&self) -> (r: &str)
        ensures
            r@ == self.spec_basic_info().name@,
    {
        match self {
            Card::Creature(creature) => creature.basic_info.name.as_str(),
            Card::Effect(effect) => effect.basic_info.name.as_str(),
        }
    }

    pub fn get_basic_info(&self) -> (r: &CardBasicInfo)
        ensures
            *r == self.spec_basic_info(),
    {
        match self {
            Card::Creature(creature) => &creature.basic_info,
            Card::Effect(effect) => &effect.basic_info,
        }
    }

    /// Whether the pointer, in screen space, lies on the given rectangle.
    /// Independent of the isometric transform.
    pub fn is_hovered(&self, dimensions: Rect, pointer: Point) -> (r: bool)
        requires
            dimensions.wf(),
        ensures
            r == dimensions.spec_contains(pointer),
    {
        dimensions.contains(pointer)
    }
}

/// Where a card's face places each sub-region, in a fixed relative order:
/// name at the top, cost badge at the top right, portrait in the upper
/// third, then the kind-specific body rows. Creature cards use all three
/// body rows (hit points, mobility, description); effect cards use the
/// first two (effect line, description). The renderer draws at exactly
/// these positions, so the order is stable as the rectangle scales.
pub struct CardLayout {
    /// Top-left text position of the display name.
    pub name_pos: Point,
    /// Centre of the cost badge, at the top right.
    pub cost_badge_pos: Point,
    /// Text position of the cost number, on the badge.
    pub cost_text_pos: Point,
    /// The portrait / cover area, in the upper third of the card.
    pub portrait: Rect,
    /// First body row, at half height.
    pub stat_pos: Point,
    /// Second body row, at six tenths of the height.
    pub info_pos: Point,
    /// Third body row, at seven tenths of the height.
    pub description_pos: Point,
    /// Font size of the description rows: six tenths of the base font.
    pub description_font_size: i64,
}

/// Compute the sub-regions of a card's face for a given target rectangle
/// and font size. Pure: the renderer draws at the returned positions.
pub fn card_layout(card: Rect, font_size: i64) -> (r: CardLayout)
    requires
        valid_card_rect(card),
        0 <= font_size <= CARD_COORD_LIMIT,
    ensures
        r.name_pos.x == card.x + font_size / 2,
        r.name_pos.y == card.y + font_size,
        r.cost_badge_pos.x == card.x + card.w - 17,
        r.cost_badge_pos.y == card.y + font_size - 3,
        r.cost_text_pos.x == card.x + card.w - 20,
        r.cost_text_pos.y == card.y + font_size,
        r.portrait.x == card.x + 6,
        r.portrait.y == card.y + 24,
        r.portrait.w == card.w - 12,
        r.portrait.h == card.h / 3,
        r.stat_pos.x == card.x + font_size / 2,
        r.stat_pos.y == card.y + card.h / 2,
        r.info_pos.x == card.x + font_size / 2,
        r.info_pos.y == card.y + (6 * card.h) / 10,
        r.description_pos.x == card.x + font_size / 2,
        r.description_pos.y == card.y + (7 * card.h) / 10,
        r.description_font_size == (6 * font_size) / 10,
{
    let half_font: i64 = trunc_div_i64(font_size, 2);
    let third_h: i64 = trunc_div_i64(card.h, 3);
    let half_h: i64 = trunc_div_i64(card.h, 2);
    let info_h: i64 = trunc_div_i64(6 * card.h, 10);
    let desc_h: i64 = trunc_div_i64(7 * card.h, 10);
    let desc_font: i64 = trunc_div_i64(6 * font_size, 10);
    CardLayout {
        name_pos: Point { x: card.x + half_font, y: card.y + font_size },
        cost_badge_pos: Point { x: card.x + card.w - 17, y: card.y + font_size - 3 },
        cost_text_pos: Point { x: card.x + card.w - 20, y: card.y + font_size },
        portrait: Rect { x: card.x + 6, y: card.y + 24, w: card.w - 12, h: third_h },
        stat_pos: Point { x: card.x + half_font, y: card.y + half_h },
        info_pos: Point { x: card.x + half_font, y: card.y + info_h },
        description_pos: Point { x: card.x + half_font, y: card.y + desc_h },
        description_font_size: desc_font,
    }
}

/// The layout contract behind the hand's stable animation: for any card
/// rectangle tall enough for its rows and a top row no taller than the
/// portrait margin, the face's regions keep their fixed relative order —
/// name above the portrait, the portrait within the upper half, then the
/// body rows strictly descending and ending inside the card.
pub proof fn lemma_card_layout_order(card: Rect, font_size: int)
    requires
        0 < font_size <= 24,
        144 <= card.h,
    ensures
        card.y + font_size <= card.y + 24,
        card.y + 24 + card.h / 3 <= card.y + card.h / 2,
        card.y + card.h / 2 < card.y + (6 * card.h) / 10,
        card.y + (6 * card.h) / 10 < card.y + (7 * card.h) / 10,
        card.y + (7 * card.h) / 10 < card.y + card.h,
{
    let h = card.h as int;
    assert(24 + h / 3 <= h / 2 && h / 2 < (6 * h) / 10 && (6 * h) / 10 < (7 * h) / 10 && (7 * h)
        / 10 < h) by (nonlinear_arith)
        requires
            144 <= h,
    ;
}

/// A rectangle the card layout can place a card at: within the first
/// quadrant and small enough that scaling it stays inside `i64`.
pub open spec fn valid_card_rect(r: Rect) -> bool {
    &&& 0 <= r.x
    &&& 0 <= r.y
    &&& 0 <= r.w
    &&& 0 <= r.h
    &&& r.x + r.w <= CARD_COORD_LIMIT
    &&& r.y + r.h <= CARD_COORD_LIMIT
}

/// Scale after one hovered frame: the gap to the hovered scale shrinks by
/// `speed` thousandths of itself (with the step capped, as an upper
/// guard, at the hovered scale).
pub open spec fn spec_scale_increased(scale: int, hovered_scale: int, speed: int) -> int {
    let step = ((hovered_scale - scale) * speed) / 1000;
    if step >= hovered_scale {
        scale + hovered_scale
    } else {
        scale + step
    }
}

/// Scale after one unhovered frame: falls linearly by `speed` thousandths,
/// never below resting.
pub open spec fn spec_scale_decreased(scale: int, speed: int) -> int {
    if scale - speed >= SCALE_ONE {
        scale - speed
    } else {
        SCALE_ONE as int
    }
}

/// One card of the hand together with its presentation state: the animated
/// scale, the resting rectangle, the rectangle it was last drawn at, and
/// where the next card's hover zone begins.
pub struct DisplayedCard {
    pub card: Card,
    /// Current scale, in thousandths; `SCALE_ONE` at rest.
    pub scale: u32,
    /// Scale the card eases toward while hovered, in thousandths.
    pub hovered_scale: u32,
    /// The resting rectangle, recomputed when the viewport changes.
    pub base_dimensions: Rect,
    /// The rectangle of the last frame, reflecting the animated size.
    pub current_dimensions: Rect,
    /// Screen x at which the next card's hover zone begins; this card's
    /// zone stops there, so two neighbours never both claim the pointer.
    pub neighbour_start: i64,
}

impl DisplayedCard {
    /// Presentation state the animation preserves: the scale sits between
    /// resting and the hovered target, the hovered target is small enough
    /// for the ease-out to reset in one frame, and all geometry is within
    /// the layout bounds.
    pub open spec fn wf(&self) -> bool {
        &&& SCALE_ONE <= self.scale <= self.hovered_scale <= MAX_HOVERED_SCALE
        &&& valid_card_rect(self.base_dimensions)
        &&& self.base_dimensions.x <= self.neighbour_start <= CARD_COORD_LIMIT
        &&& -2 * CARD_COORD_LIMIT <= self.current_dimensions.x <= 2 * CARD_COORD_LIMIT
        &&& -2 * CARD_COORD_LIMIT <= self.current_dimensions.y <= 2 * CARD_COORD_LIMIT
        &&& 0 <= self.current_dimensions.w <= 2 * CARD_COORD_LIMIT
        &&& 0 <= self.current_dimensions.h <= 2 * CARD_COORD_LIMIT
    }

    /// The rectangle within which the pointer claims this card: from the
    /// card's own left edge to where the next card's zone begins, at the
    /// resting height.
    pub open spec fn spec_hover_zone(&self) -> Rect {
        Rect {
            x: self.base_dimensions.x,
            y: self.base_dimensions.y,
            w: (self.neighbour_start - self.base_dimensions.x) as i64,
            h: self.base_dimensions.h,
        }
    }

    /// Whether a pointer at this position claims the card this frame.
    pub open spec fn spec_hovered(&self, pointer: Point) -> bool {
        self.spec_hover_zone().spec_contains(pointer)
    }

    /// Width the card is drawn at this frame: the base width scaled by the
    /// frame-entry scale.
    pub open spec fn spec_draw_w(&self) -> int {
        (self.base_dimensions.w * self.scale) / 1000
    }

    /// Height the card is drawn at this frame.
    pub open spec fn spec_draw_h(&self) -> int {
        (self.base_dimensions.h * self.scale) / 1000
    }

    /// Vertical position the card is drawn at: raised by the previous
    /// frame's height delta so growth pushes the card upward, and pulled
    /// further up the screen while hovered so it does not occlude its
    /// neighbours.
    pub open spec fn spec_draw_y(&self, hovered: bool) -> int {
        let y0 = self.base_dimensions.y - (self.current_dimensions.h - self.base_dimensions.h);
        if hovered {
            trunc_div(y0 * 6, 10)
        } else {
            y0
        }
    }

    /// A fresh displayed card at rest.
    pub fn new(card: Card, hovered_scale: u32, base_dimensions: Rect, neighbour_start: i64) -> (r:
        DisplayedCard)
        requires
            SCALE_ONE < hovered_scale <= MAX_HOVERED_SCALE,
            valid_card_rect(base_dimensions),
            base_dimensions.x <= neighbour_start <= CARD_COORD_LIMIT,
        ensures
            r.card == card,
            r.scale == SCALE_ONE,
            r.hovered_scale == hovered_scale,
            r.base_dimensions == base_dimensions,
            r.current_dimensions == base_dimensions,
            r.neighbour_start == neighbour_start,
            r.wf(),
    {
        DisplayedCard {
            card,
            scale: SCALE_ONE,
            hovered_scale,
            base_dimensions,
            current_dimensions: base_dimensions,
            neighbour_start,
        }
    }

    /// Ease the scale toward the hovered target.
    fn increase_scale(&mut self, speed: u32)
        requires
            old(self).wf(),
            speed <= 1000,
        ensures
            final(self).scale == spec_scale_increased(
                old(self).scale as int,
                old(self).hovered_scale as int,
                speed as int,
            ),
            final(self).card == old(self).card,
            final(self).hovered_scale == old(self).hovered_scale,
            final(self).base_dimensions == old(self).base_dimensions,
            final(self).current_dimensions == old(self).current_dimensions,
            final(self).neighbour_start == old(self).neighbour_start,
            final(self).wf(),
            final(self).scale >= old(self).scale,
    {
        let gap: u32 = self.hovered_scale - self.scale;
        proof {
            assert(gap * speed <= gap * 1000) by (nonlinear_arith)
                requires
                    0 <= gap,
                    speed <= 1000,
            ;
            assert(gap * 1000 >= 0);
            lemma_div_is_ordered(gap as int * speed as int, gap as int * 1000, 1000);
            lemma_div_by_multiple(gap as int, 1000);
        }
        let prod: u64 = (gap as u64) * (speed as u64);
        let d1: u64 = prod / 1000;
        let delta: u32 = if d1 >= self.hovered_scale as u64 {
            self.hovered_scale
        } else {
            d1 as u32
        };
        self.scale = self.scale + delta;
    }

    /// Ease the scale back toward resting.
    fn decrease_scale(&mut self, speed: u32)
        requires
            old(self).wf(),
        ensures
            final(self).scale == spec_scale_decreased(old(self).scale as int, speed as int),
            final(self).card == old(self).card,
            final(self).hovered_scale == old(self).hovered_scale,
            final(self).base_dimensions == old(self).base_dimensions,
            final(self).current_dimensions == old(self).current_dimensions,
            final(self).neighbour_start == old(self).neighbour_start,
            final(self).wf(),
            final(self).scale <= old(self).scale,
    {
        self.scale = if self.scale >= speed && self.scale - speed >= SCALE_ONE {
            self.scale - speed
        } else {
            SCALE_ONE
        };
    }

    /// One frame of this card's presentation: compute the rectangle the
    /// card is drawn at from the frame-entry scale, then ease the scale in
    /// if the pointer lies in the hover zone and out otherwise. Returns
    /// the rectangle to draw this frame; `current_dimensions` keeps it.
    pub fn display_card(&mut self, pointer: Point) -> (r: Rect)
        requires
            old(self).wf(),
        ensures
            final(self).wf(),
            final(self).card == old(self).card,
            final(self).hovered_scale == old(self).hovered_scale,
            final(self).base_dimensions == old(self).base_dimensions,
            final(self).neighbour_start == old(self).neighbour_start,
            final(self).scale == (if old(self).spec_hovered(pointer) {
                spec_scale_increased(
                    old(self).scale as int,
                    old(self).hovered_scale as int,
                    HOVER_EASE_IN as int,
                )
            } else {
                spec_scale_decreased(old(self).scale as int, HOVER_EASE_OUT as int)
            }),
            r.x == old(self).base_dimensions.x,
            r.y == old(self).spec_draw_y(old(self).spec_hovered(pointer)),
            r.w == old(self).spec_draw_w(),
            r.h == old(self).spec_draw_h(),
            final(self).current_dimensions == r,
    {
        let scale_i: i64 = self.scale as i64;
        proof {
            assert(self.base_dimensions.w * scale_i <= CARD_COORD_LIMIT * 1500 && 0
                <= self.base_dimensions.w * scale_i) by (nonlinear_arith)
                requires
                    0 <= self.base_dimensions.w <= CARD_COORD_LIMIT,
                    0 <= scale_i <= 1500,
            ;
            assert(self.base_dimensions.h * scale_i <= CARD_COORD_LIMIT * 1500 && 0
                <= self.base_dimensions.h * scale_i) by (nonlinear_arith)
                requires
                    0 <= self.base_dimensions.h <= CARD_COORD_LIMIT,
                    0 <= scale_i <= 1500,
            ;
        }
        let x: i64 = self.base_dimensions.x;
        let y0: i64 = self.base_dimensions.y - (self.current_dimensions.h
            - self.base_dimensions.h);
        let w: i64 = trunc_div_i64(self.base_dimensions.w * scale_i, 1000);
        let h: i64 = trunc_div_i64(self.base_dimensions.h * scale_i, 1000);
        proof {
            lemma_div_is_ordered(
                self.base_dimensions.w * scale_i,
                CARD_COORD_LIMIT * 1500,
                1000,
            );
            lemma_div_is_ordered(
                self.base_dimensions.h * scale_i,
                CARD_COORD_LIMIT * 1500,
                1000,
            );
        }
        let mut hoverable: Rect = self.base_dimensions;
        hoverable.w = self.neighbour_start - self.base_dimensions.x;
        let hovered: bool = self.card.is_hovered(hoverable, pointer);
        let y: i64 = if hovered {
            trunc_div_i64(y0 * 6, 10)
        } else {
            y0
        };
        if hovered {
            self.increase_scale(HOVER_EASE_IN);
        } else {
            self.decrease_scale(HOVER_EASE_OUT);
        }
        let r = Rect { x, y, w, h };
        self.current_dimensions = r;
        r
    }
}

} // verus!
