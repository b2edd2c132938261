//! The hand interaction state machine: the ordered row of displayed
//! cards, per-frame hover animation, selection toggling, layout against
//! the viewport, and playing a selected card into the world's roster.

use vstd::prelude::*;

use crate::card::{
    Card, CreatureCard, DisplayedCard, HOVER_EASE_IN, HOVER_EASE_OUT, MAX_HOVERED_SCALE, SCALE_ONE,
    spec_scale_decreased, spec_scale_increased, valid_card_rect,
};
use crate::errors::GameError;
use crate::geometry::{Point, Rect};
use crate::isometric_manipulation::GridCell;

verus! {

/// Most cards a hand can hold: keeps every layout coordinate inside the
/// card coordinate bounds.
pub const MAX_HAND_CARDS: usize = 10000;

/// Every card is animation-safe and eases toward the hand's hovered
/// scale.
pub open spec fn spec_cards_wf(s: Seq<DisplayedCard>, hovered_scale: u32) -> bool {
    forall|i: int|
        0 <= i < s.len() ==> (#[trigger] s[i]).wf() && s[i].hovered_scale == hovered_scale
}

/// At most one card of the row is lifted (scale above resting) at a time.
pub open spec fn spec_at_most_one_lifted(s: Seq<DisplayedCard>) -> bool {
    forall|i: int, j: int|
        0 <= i < s.len() && 0 <= j < s.len() && i != j ==> ((#[trigger] s[i]).scale > SCALE_ONE
            ==> (#[trigger] s[j]).scale <= SCALE_ONE)
}

/// Two hover zones that can never both claim a pointer: one of them is
/// empty, or the earlier one ends before the later one begins.
pub open spec fn zone_pair_ok(a: DisplayedCard, b: DisplayedCard) -> bool {
    ||| a.neighbour_start <= a.base_dimensions.x
    ||| b.neighbour_start <= b.base_dimensions.x
    ||| a.neighbour_start <= b.base_dimensions.x
}

/// The hover zones of the row are mutually exclusive, in order.
pub open spec fn spec_zones_ordered(s: Seq<DisplayedCard>) -> bool {
    forall|i: int, j: int| 0 <= i < j < s.len() ==> zone_pair_ok(#[trigger] s[i], #[trigger] s[j])
}

/// Where the layout puts the card at position `i` of `n` for a viewport
/// `vw` by `vh`: proportional card size (a fifth of the width, three
/// tenths of the height), a base offset of three tenths of a card width
/// per position, a resting line near the bottom of the screen, and the
/// hover zone ending where the next card's begins — except for the last
/// card, whose zone extends to its own right edge.
pub open spec fn spec_card_laid_out(c: DisplayedCard, i: int, n: int, vw: int, vh: int) -> DisplayedCard {
    let new_w = (2 * vw) / 10;
    let new_h = (3 * vh) / 10;
    let stride = (3 * new_w) / 10;
    let x = stride * (i + 1);
    let ns = if i == n - 1 {
        x + new_w
    } else {
        stride * (i + 2)
    };
    DisplayedCard {
        card: c.card,
        scale: c.scale,
        hovered_scale: c.hovered_scale,
        base_dimensions: Rect {
            x: x as i64,
            y: ((9 * vh) / 10) as i64,
            w: new_w as i64,
            h: new_h as i64,
        },
        current_dimensions: c.current_dimensions,
        neighbour_start: ns as i64,
    }
}

/// The whole row laid out against a viewport.
pub open spec fn spec_hand_layout(s: Seq<DisplayedCard>, vw: int, vh: int) -> Seq<DisplayedCard> {
    Seq::new(s.len(), |i: int| spec_card_laid_out(s[i], i, s.len() as int, vw, vh))
}

/// Two zones in the `zone_pair_ok` relation never both claim one pointer.
proof fn lemma_zones_exclusive(a: DisplayedCard, b: DisplayedCard, p: Point)
    requires
        a.wf(),
        b.wf(),
        zone_pair_ok(a, b),
        a.spec_hovered(p),
    ensures
        !b.spec_hovered(p),
{
}

/// What `select_hovered_card` does to the selection: adopt the hovered
/// index, or clear the selection if it already is the hovered index.
pub open spec fn spec_select(selected: Option<usize>, hovered: Option<usize>) -> Option<usize> {
    if selected == hovered {
        None
    } else {
        hovered
    }
}

/// A player's hand: the ordered row of displayed cards (left to right),
/// the hovered and selected positions, and the cached viewport the layout
/// was last computed for.
pub struct Hand {
    /// Current cards in hand, in hand order.
    pub card_in_hands: Vec<DisplayedCard>,
    /// Card selected by the player, ready to be played: none, or an
    /// in-range position.
    pub selected_card: Option<usize>,
    /// Card under the cursor, derived each frame from the scales: none,
    /// or an in-range position.
    pub hovered_card: Option<usize>,
    /// The scale of hovered cards, in thousandths.
    pub hovered_scale: u32,
    /// The dimensions of a card (width, height), in pixels.
    pub card_dimensions: (u32, u32),
    /// The viewport size (width, height) the layout was last computed
    /// for.
    pub screen_size: (u32, u32),
}

impl Hand {
    /// The hand's invariant: a bounded row of animation-safe cards with
    /// mutually exclusive hover zones, at most one of them lifted, and
    /// both indices in range when present.
    pub open spec fn wf(&self) -> bool {
        &&& SCALE_ONE < self.hovered_scale <= MAX_HOVERED_SCALE
        &&& self.card_in_hands@.len() <= MAX_HAND_CARDS
        &&& spec_cards_wf(self.card_in_hands@, self.hovered_scale)
        &&& spec_at_most_one_lifted(self.card_in_hands@)
        &&& spec_zones_ordered(self.card_in_hands@)
        &&& (self.selected_card matches Some(k) ==> k < self.card_in_hands@.len())
        &&& (self.hovered_card matches Some(k) ==> k < self.card_in_hands@.len())
    }

    /// Create a new, empty hand.
    ///
    /// * `hovered_scale`: the scale of a card once hovered, in
    ///   thousandths; above resting, and low enough that the ease-out
    ///   resets a lifted card in one frame.
    /// * `card_dimensions`: width and height of the cards, replaced by
    ///   the viewport-derived size at the first layout.
    pub fn new(hovered_scale: u32, card_dimensions: (u32, u32)) -> (r: Hand)
        requires
            SCALE_ONE < hovered_scale <= MAX_HOVERED_SCALE,
        ensures
            r.wf(),
            r.card_in_hands@.len() == 0,
            r.selected_card is None,
            r.hovered_card is None,
            r.hovered_scale == hovered_scale,
            r.card_dimensions == card_dimensions,
            r.screen_size == (0u32, 0u32),
    {
        Hand {
            card_in_hands: Vec::new(),
            selected_card: None,
            hovered_card: None,
            hovered_scale,
            card_dimensions,
            screen_size: (0, 0),
        }
    }

    /// Append a card to the hand, at rest. Its rectangle and hover zone
    /// start empty; the next layout pass against a changed viewport sizes
    /// them.
    pub fn add_card(&mut self, card: Card)
        requires
            old(self).wf(),
            old(self).card_in_hands@.len() < MAX_HAND_CARDS,
        ensures
            final(self).wf(),
            final(self).card_in_hands@.len() == old(self).card_in_hands@.len() + 1,
            forall|i: int|
                0 <= i < old(self).card_in_hands@.len() ==> final(self).card_in_hands@[i] == old(self).card_in_hands@[i],
            final(self).card_in_hands@.last().card == card,
            final(self).card_in_hands@.last().scale == SCALE_ONE,
            final(self).card_in_hands@.last().hovered_scale == old(self).hovered_scale,
            final(self).selected_card == old(self).selected_card,
            final(self).hovered_card == old(self).hovered_card,
            final(self).hovered_scale == old(self).hovered_scale,
            final(self).card_dimensions == old(self).card_dimensions,
            final(self).screen_size == old(self).screen_size,
    {
        let base_dimensions = Rect { x: 0, y: 0, w: 0, h: 0 };
        let neighbour_start: i64 = 0;
        let new_card_to_display = DisplayedCard::new(
            card,
            self.hovered_scale,
            base_dimensions,
            neighbour_start,
        );
        self.card_in_hands.push(new_card_to_display);
    }

    /// Whether a card is hovered.
    pub fn card_is_hovered(&self) -> (r: bool)
        ensures
            r == (self.hovered_card is Some),
    {
        self.hovered_card.is_some()
    }

    /// Whether a card is selected.
    pub fn card_is_selected(&self) -> (r: bool)
        ensures
            r == (self.selected_card is Some),
    {
        self.selected_card.is_some()
    }

    /// Set the currently hovered card as the selected card; if that card
    /// is already selected, it is deselected. This is the only path that
    /// sets the selection.
    pub fn select_hovered_card(&mut self)
        requires
            old(self).wf(),
        ensures
            final(self).wf(),
            final(self).selected_card == spec_select(
                old(self).selected_card,
                old(self).hovered_card,
            ),
            final(self).hovered_card == old(self).hovered_card,
            final(self).card_in_hands == old(self).card_in_hands,
            final(self).hovered_scale == old(self).hovered_scale,
            final(self).card_dimensions == old(self).card_dimensions,
            final(self).screen_size == old(self).screen_size,
    {
        let same: bool = match (self.hovered_card, self.selected_card) {
            (Some(h), Some(s)) => h == s,
            (None, None) => true,
            _ => false,
        };
        self.selected_card = if same {
            None
        } else {
            self.hovered_card
        };
    }

    /// Update the size and position of every card to fit the viewport.
    /// Recomputes only when the viewport differs from the last recorded
    /// size, so a frame at rest does no layout work.
    fn update_card_to_screen(&mut self, viewport_w: u32, viewport_h: u32)
        requires
            old(self).wf(),
        ensures
            final(self).wf(),
            final(self).selected_card == old(self).selected_card,
            final(self).hovered_card == old(self).hovered_card,
            final(self).hovered_scale == old(self).hovered_scale,
            final(self).screen_size == (viewport_w, viewport_h),
            old(self).screen_size == (viewport_w, viewport_h) ==> final(self).card_in_hands@
                =~= old(self).card_in_hands@ && final(self).card_dimensions == old(self).card_dimensions,
            old(self).screen_size != (viewport_w, viewport_h) ==> {
                &&& final(self).card_in_hands@ =~= spec_hand_layout(
                    old(self).card_in_hands@,
                    viewport_w as int,
                    viewport_h as int,
                )
                &&& final(self).card_dimensions.0 == (2 * viewport_w) / 10
                &&& final(self).card_dimensions.1 == (3 * viewport_h) / 10
            },
    {
        let (w, h) = self.screen_size;
        if w != viewport_w || h != viewport_h {
            let new_w: u32 = ((2u64 * viewport_w as u64) / 10) as u32;
            let new_h: u32 = ((3u64 * viewport_h as u64) / 10) as u32;
            self.card_dimensions = (new_w, new_h);
            let stride: u32 = ((3u64 * new_w as u64) / 10) as u32;
            let y: i64 = ((9u64 * viewport_h as u64) / 10) as i64;
            let ghost before = self.card_in_hands@;
            let ghost vw = viewport_w as int;
            let ghost vh = viewport_h as int;
            let n: usize = self.card_in_hands.len();
            proof {
                assert(new_w <= 0x3333_3333u32 && stride <= 0x0F5C_28F5u32 && y
                    <= 0xE666_6665i64);
            }
            let mut i: usize = 0;
            while i < n
                invariant
                    i <= n,
                    n == self.card_in_hands@.len(),
                    n == before.len(),
                    n <= MAX_HAND_CARDS,
                    new_w == (2 * vw) / 10,
                    new_h == (3 * vh) / 10,
                    stride == (3 * new_w) / 10,
                    y == (9 * vh) / 10,
                    new_w <= 0x3333_3333u32,
                    stride <= 0x0F5C_28F5u32,
                    y <= 0xE666_6665i64,
                    spec_cards_wf(before, self.hovered_scale),
                    forall|j: int|
                        i <= j < n ==> self.card_in_hands@[j] == before[j],
                    forall|j: int|
                        0 <= j < i ==> self.card_in_hands@[j] == spec_card_laid_out(
                            before[j],
                            j,
                            n as int,
                            vw,
                            vh,
                        ),
                    self.selected_card == old(self).selected_card,
                    self.hovered_card == old(self).hovered_card,
                    self.hovered_scale == old(self).hovered_scale,
                    self.card_dimensions == (new_w, new_h),
                    self.screen_size == old(self).screen_size,
                decreases n - i,
            {
                proof {
                    assert(stride as int * (i as int + 2) <= 0x0F5C_28F5 * 10001) by (nonlinear_arith)
                        requires
                            0 <= stride <= 0x0F5C_28F5,
                            0 <= i as int + 2 <= 10001,
                    ;
                    assert(0 <= stride as int * (i as int + 1) <= stride as int * (i as int
                        + 2)) by (nonlinear_arith)
                        requires
                            0 <= stride,
                            0 <= i as int + 1 <= i as int + 2,
                    ;
                }
                let x: i64 = (stride as i64) * (i as i64 + 1);
                let ns: i64 = if i == n - 1 {
                    x + new_w as i64
                } else {
                    (stride as i64) * (i as i64 + 2)
                };
                self.card_in_hands[i].base_dimensions = Rect {
                    x,
                    y,
                    w: new_w as i64,
                    h: new_h as i64,
                };
                self.card_in_hands[i].neighbour_start = ns;
                i += 1;
            }
            self.screen_size = (viewport_w, viewport_h);
            proof {
                let laid = spec_hand_layout(before, vw, vh);
                assert(self.card_in_hands@ =~= laid);
                assert forall|a: int, b: int| 0 <= a < b < n implies zone_pair_ok(
                    #[trigger] laid[a],
                    #[trigger] laid[b],
                ) by {
                    let nsa = stride as int * (a + 2);
                    let xb = stride as int * (b + 1);
                    assert(0 <= nsa <= 0x0F5C_28F5 * 10001 && 0 <= xb <= 0x0F5C_28F5 * 10001
                        && nsa <= xb) by (nonlinear_arith)
                        requires
                            nsa == stride as int * (a + 2),
                            xb == stride as int * (b + 1),
                            0 <= stride <= 0x0F5C_28F5,
                            2 <= a + 2 <= b + 1,
                            b + 1 <= 10001,
                    ;
                    assert(laid[a].neighbour_start == nsa as i64);
                    assert(laid[b].base_dimensions.x == xb as i64);
                }
                assert forall|j: int| 0 <= j < n implies (#[trigger] laid[j]).wf()
                    && laid[j].hovered_scale == self.hovered_scale by {
                    let xj = stride as int * (j + 1);
                    let nsj = stride as int * (j + 2);
                    assert(0 <= xj <= nsj <= 0x0F5C_28F5 * 10001) by (nonlinear_arith)
                        requires
                            xj == stride as int * (j + 1),
                            nsj == stride as int * (j + 2),
                            0 <= stride <= 0x0F5C_28F5,
                            1 <= j + 1 <= j + 2 <= 10001,
                    ;
                    assert(laid[j].base_dimensions.x == xj as i64);
                    assert(laid[j].neighbour_start == (if j == n - 1 {
                        xj + (2 * vw) / 10
                    } else {
                        nsj
                    }) as i64);
                }
            }
        } else {
            self.screen_size = (viewport_w, viewport_h);
        }
    }

    /// One frame of the hand: refresh the layout if the viewport changed,
    /// run every card's hover animation against the pointer, and then
    /// derive the hovered index from the scales — the card left lifted,
    /// if any — rather than scanning a second time.
    pub fn display_hand(&mut self, pointer: Point, viewport_w: u32, viewport_h: u32)
        requires
            old(self).wf(),
        ensures
            final(self).wf(),
            final(self).selected_card == old(self).selected_card,
            final(self).hovered_scale == old(self).hovered_scale,
            final(self).screen_size == (viewport_w, viewport_h),
            final(self).card_in_hands@.len() == old(self).card_in_hands@.len(),
            ({
                let laid = if old(self).screen_size == (viewport_w, viewport_h) {
                    old(self).card_in_hands@
                } else {
                    spec_hand_layout(
                        old(self).card_in_hands@,
                        viewport_w as int,
                        viewport_h as int,
                    )
                };
                forall|i: int|
                    0 <= i < laid.len() ==> {
                        let c = #[trigger] final(self).card_in_hands@[i];
                        let l = laid[i];
                        let hov = l.spec_hovered(pointer);
                        &&& c.card == l.card
                        &&& c.hovered_scale == l.hovered_scale
                        &&& c.base_dimensions == l.base_dimensions
                        &&& c.neighbour_start == l.neighbour_start
                        &&& c.scale == (if hov {
                            spec_scale_increased(
                                l.scale as int,
                                l.hovered_scale as int,
                                HOVER_EASE_IN as int,
                            )
                        } else {
                            spec_scale_decreased(l.scale as int, HOVER_EASE_OUT as int)
                        })
                        &&& c.current_dimensions.x == l.base_dimensions.x
                        &&& c.current_dimensions.y == l.spec_draw_y(hov)
                        &&& c.current_dimensions.w == l.spec_draw_w()
                        &&& c.current_dimensions.h == l.spec_draw_h()
                    }
            }),
            final(self).hovered_card matches Some(k) ==> k < final(self).card_in_hands@.len()
                && final(self).card_in_hands@[k as int].scale > SCALE_ONE,
            forall|i: int|
                0 <= i < final(self).card_in_hands@.len() && (#[trigger] final(self).card_in_hands@[i]).scale > SCALE_ONE ==> final(self).hovered_card == Some(
                    i as usize,
                ),
            old(self).screen_size == (viewport_w, viewport_h) ==> final(self).card_dimensions
                == old(self).card_dimensions,
            old(self).screen_size != (viewport_w, viewport_h) ==> final(self).card_dimensions.0 == (2 * viewport_w) / 10 && final(self).card_dimensions.1 == (3
                * viewport_h) / 10,
    {
        self.update_card_to_screen(viewport_w, viewport_h);
        let ghost mid = *self;
        let ghost laid = self.card_in_hands@;
        let mut hovered_card: Option<usize> = None;
        let n: usize = self.card_in_hands.len();
        let mut i: usize = 0;
        while i < n
            invariant
                i <= n,
                n == self.card_in_hands@.len(),
                n == laid.len(),
                n <= MAX_HAND_CARDS,
                SCALE_ONE < self.hovered_scale <= MAX_HOVERED_SCALE,
                spec_cards_wf(laid, self.hovered_scale),
                spec_zones_ordered(laid),
                self.selected_card == mid.selected_card,
                self.hovered_card == mid.hovered_card,
                self.hovered_scale == mid.hovered_scale,
                self.card_dimensions == mid.card_dimensions,
                self.screen_size == mid.screen_size,
                forall|j: int| i <= j < n ==> self.card_in_hands@[j] == laid[j],
                forall|j: int|
                    0 <= j < i ==> {
                        let c = #[trigger] self.card_in_hands@[j];
                        let l = laid[j];
                        let hov = l.spec_hovered(pointer);
                        &&& c.wf()
                        &&& c.card == l.card
                        &&& c.hovered_scale == l.hovered_scale
                        &&& c.base_dimensions == l.base_dimensions
                        &&& c.neighbour_start == l.neighbour_start
                        &&& c.scale == (if hov {
                            spec_scale_increased(
                                l.scale as int,
                                l.hovered_scale as int,
                                HOVER_EASE_IN as int,
                            )
                        } else {
                            spec_scale_decreased(l.scale as int, HOVER_EASE_OUT as int)
                        })
                        &&& (c.scale > SCALE_ONE ==> hov)
                        &&& c.current_dimensions.x == l.base_dimensions.x
                        &&& c.current_dimensions.y == l.spec_draw_y(hov)
                        &&& c.current_dimensions.w == l.spec_draw_w()
                        &&& c.current_dimensions.h == l.spec_draw_h()
                    },
                hovered_card matches Some(k) ==> k < i && self.card_in_hands@[
                    k as int
                ].scale > SCALE_ONE,
                forall|j: int|
                    0 <= j < i && (#[trigger] self.card_in_hands@[j]).scale > SCALE_ONE
                        ==> hovered_card == Some(j as usize),
            decreases n - i,
        {
            self.card_in_hands[i].display_card(pointer);
            if self.card_in_hands[i].scale > SCALE_ONE {
                proof {
                    let c = self.card_in_hands@[i as int];
                    let l = laid[i as int];
                    assert(l.spec_hovered(pointer)) by {
                        if !l.spec_hovered(pointer) {
                            assert(c.scale == spec_scale_decreased(
                                l.scale as int,
                                HOVER_EASE_OUT as int,
                            ));
                        }
                    }
                    assert forall|j: int|
                        0 <= j < i && (#[trigger] self.card_in_hands@[j]).scale
                            > SCALE_ONE implies false by {
                        assert(laid[j].spec_hovered(pointer));
                        assert(zone_pair_ok(laid[j], laid[i as int]));
                        lemma_zones_exclusive(laid[j], laid[i as int], pointer);
                    }
                }
                hovered_card = Some(i);
            }
            i += 1;
        }
        self.hovered_card = hovered_card;
        proof {
            assert forall|a: int, b: int|
                0 <= a < self.card_in_hands@.len() && 0 <= b < self.card_in_hands@.len() && a
                    != b && (#[trigger] self.card_in_hands@[a]).scale > SCALE_ONE implies (
            #[trigger] self.card_in_hands@[b]).scale <= SCALE_ONE by {
                if self.card_in_hands@[b].scale > SCALE_ONE {
                    assert(laid[a].spec_hovered(pointer));
                    assert(laid[b].spec_hovered(pointer));
                    if a < b {
                        lemma_zones_exclusive(laid[a], laid[b], pointer);
                    } else {
                        lemma_zones_exclusive(laid[b], laid[a], pointer);
                    }
                }
            }
            assert forall|a: int, b: int|
                0 <= a < b < self.card_in_hands@.len() implies zone_pair_ok(
                #[trigger] self.card_in_hands@[a],
                #[trigger] self.card_in_hands@[b],
            ) by {
                assert(zone_pair_ok(laid[a], laid[b]));
            }
        }
    }

    /// Play the selected card at the given grid position. A creature card
    /// leaves the hand — every later card shifts one position down, so
    /// cached indices are stale after this — and joins the roster at
    /// `pos`; the selection is cleared, and the hovered index with it
    /// (both are re-derived next frame). With no selection the call fails
    /// loudly with `InvalidIndex`; playing an effect card has no defined
    /// path yet and fails with `UnsupportedEffect`, leaving the hand and
    /// the roster exactly as they were.
    pub fn play_card(&mut self, creatures: &mut Vec<(CreatureCard, GridCell)>, pos: GridCell) -> (r:
        Result<(), GameError>)
        requires
            old(self).wf(),
        ensures
            final(self).wf(),
            r is Ok <==> (old(self).selected_card matches Some(k) && old(
                self,
            ).card_in_hands@[k as int].card is Creature),
            old(self).selected_card is None ==> r == Err::<(), GameError>(
                GameError::InvalidIndex,
            ),
            old(self).selected_card matches Some(k) && old(
                self,
            ).card_in_hands@[k as int].card is Effect ==> r == Err::<(), GameError>(
                GameError::UnsupportedEffect,
            ),
            r is Err ==> *final(self) == *old(self) && *final(creatures) == *old(creatures),
            r is Ok ==> {
                &&& old(self).selected_card matches Some(k)
                &&& final(self).card_in_hands@ =~= old(self).card_in_hands@.remove(
                    old(self).selected_card->0 as int,
                )
                &&& final(self).selected_card is None
                &&& final(self).hovered_card is None
                &&& final(self).hovered_scale == old(self).hovered_scale
                &&& final(self).card_dimensions == old(self).card_dimensions
                &&& final(self).screen_size == old(self).screen_size
                &&& (old(self).card_in_hands@[old(self).selected_card->0 as int].card matches
                    Card::Creature(c) ==> final(creatures)@ =~= old(creatures)@.push((c, pos)))
            },
    {
        match self.selected_card {
            None => Err(GameError::InvalidIndex),
            Some(k) => {
                let is_creature: bool = match &self.card_in_hands[k].card {
                    Card::Creature(_) => true,
                    Card::Effect(_) => false,
                };
                if is_creature {
                    let ghost before = self.card_in_hands@;
                    let card = self.card_in_hands.remove(k);
                    if let Card::Creature(creature_card) = card.card {
                        creatures.push((creature_card, pos));
                    }
                    self.selected_card = None;
                    self.hovered_card = None;
                    proof {
                        before.remove_ensures(k as int);
                        assert(spec_cards_wf(self.card_in_hands@, self.hovered_scale));
                        assert forall|a: int, b: int|
                            0 <= a < self.card_in_hands@.len() && 0 <= b
                                < self.card_in_hands@.len() && a != b && (#[trigger] self.card_in_hands@[a]).scale
                            > SCALE_ONE implies (#[trigger] self.card_in_hands@[b]).scale
                            <= SCALE_ONE by {
                            let a0 = if a < k { a } else { a + 1 };
                            let b0 = if b < k { b } else { b + 1 };
                            assert(self.card_in_hands@[a] == before[a0]);
                            assert(self.card_in_hands@[b] == before[b0]);
                        }
                        assert forall|a: int, b: int|
                            0 <= a < b < self.card_in_hands@.len() implies zone_pair_ok(
                            #[trigger] self.card_in_hands@[a],
                            #[trigger] self.card_in_hands@[b],
                        ) by {
                            let a0 = if a < k { a } else { a + 1 };
                            let b0 = if b < k { b } else { b + 1 };
                            assert(self.card_in_hands@[a] == before[a0]);
                            assert(self.card_in_hands@[b] == before[b0]);
                            assert(zone_pair_ok(before[a0], before[b0]));
                        }
                    }
                    Ok(())
                } else {
                    Err(GameError::UnsupportedEffect)
                }
            },
        }
    }
}

/// The single-hover law: in any well-formed hand, at most one displayed
/// card is lifted above the resting scale. Every operation of `Hand`
/// preserves well-formedness, so this holds after any sequence of pointer
/// positions and frames.
pub proof fn lemma_at_most_one_hover(h: &Hand, i: int, j: int)
    requires
        h.wf(),
        0 <= i < h.card_in_hands@.len(),
        0 <= j < h.card_in_hands@.len(),
        i != j,
        h.card_in_hands@[i].scale > SCALE_ONE,
    ensures
        h.card_in_hands@[j].scale <= SCALE_ONE,
{
}

/// The selection-toggling law: selecting twice with the hovered index
/// unchanged clears the selection, whenever the selection did not already
/// equal the hovered index (selecting twice from that state first clears
/// and then re-adopts the hovered index).
pub proof fn lemma_selection_toggle(selected: Option<usize>, hovered: Option<usize>)
    requires
        selected != hovered || hovered is None,
    ensures
        spec_select(spec_select(selected, hovered), hovered) is None,
{
}

} // verus!
