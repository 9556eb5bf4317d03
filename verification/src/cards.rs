//! The card placement engine: an ordered collection of cards inside
//! fixed-capacity zones, and the drag-and-drop state machine that moves
//! cards between and within them.
//!
//! The state lives in a [`Board`]: the battlefield zone with its insertion
//! order, the player hand the cards start in, every card's translation, the
//! last pointer position, and the at-most-one live drag gesture.  The
//! invariant [`Board::wf`] ties them together; in particular, every placed
//! card that is not being dragged sits exactly on the slot its order index
//! assigns it.

use vstd::prelude::*;

use crate::geometry::Extent2;
use crate::geometry::Pos2;
use crate::geometry::Pos3;
use crate::geometry::abs_i;
use crate::geometry::mouse_translation;
use crate::geometry::aabb_overlap;
use crate::geometry::point_in_box;
use crate::layout::LayoutParams;
use crate::layout::MAX_ZONE_CAPACITY;
use crate::layout::area_with;
use crate::layout::card_translation;
use crate::layout::row_width;
use crate::layout::slot_step;
use crate::layout::slot_x;

verus! {

/// Largest coordinate magnitude accepted for zone origins, pointer
/// positions and window half-extents, in layout units.
pub const WORLD_LIMIT: i64 = 1099511627776;

/// Largest coordinate magnitude a card can reach: a pointer position in
/// world coordinates or a slot center, with room to spare.
pub const CARD_POS_LIMIT: i64 = 4398046511104;

/// One card: its current world translation and whether it is placed in the
/// battlefield zone.  An unplaced card belongs to the hand.
#[derive(Clone, Copy, Debug, PartialEq, Eq, Structural)]
pub struct Card {
    pub translation: Pos3,
    pub placed: bool,
}

/// A fixed-capacity card zone: how many slots its row holds and the world
/// position of its center.
#[derive(Clone, Copy, Debug, PartialEq, Eq, Structural)]
pub struct CardArea {
    pub number_of_cards: usize,
    pub origin: Pos3,
}

/// The battlefield's insertion order: indices into [`Board::cards`], left
/// to right.  Every entry refers to a placed card, and no card appears
/// twice.
#[derive(Debug)]
pub struct CardsOrder(pub Vec<usize>);

/// The one live drag gesture: which card follows the pointer, and the
/// card's pre-drag translation, kept as the revert target for a drop that
/// misses the zone.
#[derive(Clone, Copy, Debug, PartialEq, Eq, Structural)]
pub struct CardBeingDragged {
    pub card: usize,
    pub original_translation: Pos3,
}

/// The whole engine state.
pub struct Board {
    pub layout: LayoutParams,
    pub battlefield: CardArea,
    pub hand: CardArea,
    pub window_half: Extent2,
    pub cards: Vec<Card>,
    pub order: CardsOrder,
    pub mouse_position: Pos2,
    pub drag: Option<CardBeingDragged>,
}

/// The parts of the state that no gesture ever changes.
pub open spec fn same_config(a: Board, b: Board) -> bool {
    &&& b.layout == a.layout
    &&& b.battlefield == a.battlefield
    &&& b.hand == a.hand
    &&& b.window_half == a.window_half
}

impl Board {
    pub open spec fn capacity(self) -> int {
        self.battlefield.number_of_cards as int
    }

    pub open spec fn order_seq(self) -> Seq<usize> {
        self.order.0@
    }

    pub open spec fn n_cards(self) -> int {
        self.cards@.len() as int
    }

    /// The index of the card the live drag holds, if any.
    pub open spec fn dragged_card(self) -> Option<int> {
        match self.drag {
            Some(d) => Some(d.card as int),
            None => None,
        }
    }

    pub open spec fn is_dragged(self, c: int) -> bool {
        self.dragged_card() == Some(c)
    }

    /// The pointer position in world coordinates: window coordinates
    /// shifted so that the window center is the world origin.
    pub open spec fn mouse_world_x(self) -> int {
        self.mouse_position.x - self.window_half.x
    }

    pub open spec fn mouse_world_y(self) -> int {
        self.mouse_position.y - self.window_half.y
    }

    /// `t` is the world position of battlefield slot `k`: the slot center
    /// in zone coordinates, carried to world coordinates by the zone
    /// origin, one depth level above the zone.
    pub open spec fn is_slot_pos(self, t: Pos3, k: int) -> bool {
        &&& t.x == self.battlefield.origin.x + slot_x(self.layout, self.capacity(), k)
        &&& t.y == self.battlefield.origin.y
        &&& t.z == self.battlefield.origin.z + 1
    }

    /// Card `c` sits on battlefield slot `k`.
    pub open spec fn at_slot(self, c: int, k: int) -> bool {
        self.is_slot_pos(self.cards@[c].translation, k)
    }

    /// Every ordered card sits on the slot its order index assigns it: no
    /// stale positions.
    pub open spec fn all_slots_current(self) -> bool {
        forall|k: int|
            #![trigger self.order.0@[k]]
            0 <= k < self.order.0@.len() ==> self.at_slot(self.order.0@[k] as int, k)
    }

    /// Like [`Board::all_slots_current`], except that the card a live drag
    /// holds follows the pointer instead.
    pub open spec fn placement_current(self) -> bool {
        forall|k: int|
            #![trigger self.order.0@[k]]
            0 <= k < self.order.0@.len() && !self.is_dragged(self.order.0@[k] as int)
                ==> self.at_slot(self.order.0@[k] as int, k)
    }

    /// The order is a duplicate-free list of placed cards, within capacity,
    /// and every placed card appears in it.
    pub open spec fn order_wf(self) -> bool {
        &&& self.order.0@.len() <= self.capacity()
        &&& forall|k: int|
            #![trigger self.order.0@[k]]
            0 <= k < self.order.0@.len() ==> (self.order.0@[k] as int) < self.n_cards()
                && self.cards@[self.order.0@[k] as int].placed
        &&& forall|k1: int, k2: int|
            #![trigger self.order.0@[k1], self.order.0@[k2]]
            0 <= k1 < k2 < self.order.0@.len() ==> self.order.0@[k1] != self.order.0@[k2]
        &&& forall|c: int|
            #![trigger self.cards@[c]]
            0 <= c < self.n_cards() && self.cards@[c].placed ==> exists|k: int|
                #![trigger self.order.0@[k]]
                0 <= k < self.order.0@.len() && self.order.0@[k] as int == c
    }

    /// Coordinate bounds that keep every computation inside 64-bit range.
    /// A card's depth is one above a zone origin, or one above that while
    /// it is dragged.
    pub open spec fn card_value_bounded(card: Card, dragged: bool) -> bool {
        &&& -CARD_POS_LIMIT <= card.translation.x <= CARD_POS_LIMIT
        &&& -CARD_POS_LIMIT <= card.translation.y <= CARD_POS_LIMIT
        &&& (if dragged {
            -WORLD_LIMIT - 2 <= card.translation.z <= WORLD_LIMIT + 2
        } else {
            -WORLD_LIMIT - 1 <= card.translation.z <= WORLD_LIMIT + 1
        })
    }

    pub open spec fn bounds_wf(self) -> bool {
        &&& -WORLD_LIMIT <= self.battlefield.origin.x <= WORLD_LIMIT
        &&& -WORLD_LIMIT <= self.battlefield.origin.y <= WORLD_LIMIT
        &&& -WORLD_LIMIT <= self.battlefield.origin.z <= WORLD_LIMIT
        &&& -WORLD_LIMIT <= self.hand.origin.x <= WORLD_LIMIT
        &&& -WORLD_LIMIT <= self.hand.origin.y <= WORLD_LIMIT
        &&& -WORLD_LIMIT <= self.hand.origin.z <= WORLD_LIMIT
        &&& 0 <= self.window_half.x <= WORLD_LIMIT
        &&& 0 <= self.window_half.y <= WORLD_LIMIT
        &&& -WORLD_LIMIT <= self.mouse_position.x <= WORLD_LIMIT
        &&& -WORLD_LIMIT <= self.mouse_position.y <= WORLD_LIMIT
        &&& forall|c: int|
            #![trigger self.cards@[c]]
            0 <= c < self.n_cards() ==> Board::card_value_bounded(
                self.cards@[c],
                self.is_dragged(c),
            )
    }

    /// A live drag refers to an existing card, its revert target is in
    /// range, and if the dragged card is placed, the revert target is the
    /// slot position of the card's order index.
    pub open spec fn drag_wf(self) -> bool {
        match self.drag {
            None => true,
            Some(d) => {
                &&& (d.card as int) < self.n_cards()
                &&& -CARD_POS_LIMIT <= d.original_translation.x <= CARD_POS_LIMIT
                &&& -CARD_POS_LIMIT <= d.original_translation.y <= CARD_POS_LIMIT
                &&& -WORLD_LIMIT - 1 <= d.original_translation.z <= WORLD_LIMIT + 1
                &&& self.cards@[d.card as int].placed ==> forall|k: int|
                    #![trigger self.order.0@[k]]
                    0 <= k < self.order.0@.len() && self.order.0@[k] as int == d.card
                        ==> self.is_slot_pos(d.original_translation, k)
            },
        }
    }

    /// The invariant minus slot positions being up to date: what holds in
    /// the middle of a drop, after the order has changed but before the
    /// reflow has recomputed positions.
    pub open spec fn wf0(self) -> bool {
        &&& self.layout.wf()
        &&& 1 <= self.battlefield.number_of_cards <= MAX_ZONE_CAPACITY
        &&& 1 <= self.hand.number_of_cards <= MAX_ZONE_CAPACITY
        &&& self.bounds_wf()
        &&& self.order_wf()
        &&& self.drag_wf()
    }

    /// The state invariant: every entry point preserves it.
    pub open spec fn wf(self) -> bool {
        &&& self.wf0()
        &&& self.placement_current()
    }

    /// The startup state: an empty battlefield order and a hand of
    /// `hand.number_of_cards` unplaced cards laid out along the hand row.
    pub fn new(
        layout: LayoutParams,
        battlefield: CardArea,
        hand: CardArea,
        window_half: Extent2,
    ) -> (b: Board)
        requires
            layout.wf(),
            1 <= battlefield.number_of_cards <= MAX_ZONE_CAPACITY,
            1 <= hand.number_of_cards <= MAX_ZONE_CAPACITY,
            -WORLD_LIMIT <= battlefield.origin.x <= WORLD_LIMIT,
            -WORLD_LIMIT <= battlefield.origin.y <= WORLD_LIMIT,
            -WORLD_LIMIT <= battlefield.origin.z <= WORLD_LIMIT,
            -WORLD_LIMIT <= hand.origin.x <= WORLD_LIMIT,
            -WORLD_LIMIT <= hand.origin.y <= WORLD_LIMIT,
            -WORLD_LIMIT <= hand.origin.z <= WORLD_LIMIT,
            0 <= window_half.x <= WORLD_LIMIT,
            0 <= window_half.y <= WORLD_LIMIT,
        ensures
            b.wf(),
            b.layout == layout,
            b.battlefield == battlefield,
            b.hand == hand,
            b.window_half == window_half,
            b.drag is None,
            b.order.0@.len() == 0,
            b.mouse_position == (Pos2 { x: 0, y: 0 }),
            b.cards@.len() == hand.number_of_cards,
            forall|i: int|
                0 <= i < hand.number_of_cards ==> {
                    &&& !b.cards@[i].placed
                    &&& b.cards@[i].translation.x == hand.origin.x + slot_x(
                        layout,
                        hand.number_of_cards as int,
                        i,
                    )
                    &&& b.cards@[i].translation.y == hand.origin.y
                    &&& b.cards@[i].translation.z == hand.origin.z + 1
                },
    {
        let mut cards: Vec<Card> = Vec::new();
        let mut i: usize = 0;
        while i < hand.number_of_cards
            invariant
                layout.wf(),
                1 <= hand.number_of_cards <= MAX_ZONE_CAPACITY,
                -WORLD_LIMIT <= hand.origin.x <= WORLD_LIMIT,
                -WORLD_LIMIT <= hand.origin.y <= WORLD_LIMIT,
                -WORLD_LIMIT <= hand.origin.z <= WORLD_LIMIT,
                i <= hand.number_of_cards,
                cards@.len() == i,
                forall|j: int|
                    #![trigger cards@[j]]
                    0 <= j < i ==> {
                        &&& !cards@[j].placed
                        &&& cards@[j].translation.x == hand.origin.x + slot_x(
                            layout,
                            hand.number_of_cards as int,
                            j,
                        )
                        &&& -CARD_POS_LIMIT <= cards@[j].translation.x <= CARD_POS_LIMIT
                        &&& cards@[j].translation.y == hand.origin.y
                        &&& cards@[j].translation.z == hand.origin.z + 1
                    },
            decreases hand.number_of_cards - i,
        {
            let local = card_translation(&layout, hand.number_of_cards, i);
            let t = Pos3 {
                x: hand.origin.x + local.x,
                y: hand.origin.y + local.y,
                z: hand.origin.z + local.z,
            };
            cards.push(Card { translation: t, placed: false });
            i += 1;
        }
        Board {
            layout,
            battlefield,
            hand,
            window_half,
            cards,
            order: CardsOrder(Vec::new()),
            mouse_position: Pos2 { x: 0, y: 0 },
            drag: None,
        }
    }

    /// The pointer lies inside card `c`'s bounding box.
    pub open spec fn card_hit(self, c: int) -> bool {
        let t = self.cards@[c].translation;
        &&& 2 * abs_i(self.mouse_world_x() - t.x) < self.layout.card_width
        &&& 2 * abs_i(self.mouse_world_y() - t.y) < self.layout.card_height
    }

    /// The first card at index `i` or later whose box contains the
    /// pointer: ties between overlapping cards go to the lower index.
    pub open spec fn first_hit_from(self, i: int) -> Option<int>
        decreases self.n_cards() - i,
    {
        if i < 0 || i >= self.n_cards() {
            None
        } else if self.card_hit(i) {
            Some(i)
        } else {
            self.first_hit_from(i + 1)
        }
    }

    /// Hit testing: the first card, in index order, whose bounding box
    /// contains the pointer, or nothing if the pointer touches no card.
    pub fn find_hit(&self) -> (r: Option<usize>)
        requires
            self.wf(),
        ensures
            r is None ==> self.first_hit_from(0) is None,
            r matches Some(c) ==> self.first_hit_from(0) == Some(c as int) && (c as int)
                < self.n_cards() && self.card_hit(c as int),
    {
        let m = mouse_translation(self.mouse_position, self.window_half, 0);
        let mx = m.x;
        let my = m.y;
        let n = self.cards.len();
        let mut i: usize = 0;
        while i < n
            invariant
                self.wf(),
                n == self.cards@.len(),
                mx as int == self.mouse_world_x(),
                my as int == self.mouse_world_y(),
                i <= n,
                self.first_hit_from(0) == self.first_hit_from(i as int),
            decreases n - i,
        {
            let t = self.cards[i].translation;
            if point_in_box(
                Pos2 { x: mx, y: my },
                Pos2 { x: t.x, y: t.y },
                Extent2 { x: self.layout.card_width, y: self.layout.card_height },
            ) {
                proof {
                    assert(self.card_hit(i as int));
                    assert(self.first_hit_from(i as int) == Some(i as int));
                }
                return Some(i);
            }
            proof {
                assert(!self.card_hit(i as int));
                assert(self.first_hit_from(i as int) == self.first_hit_from(i as int + 1));
            }
            i += 1;
        }
        None
    }

    /// Pointer-down (Idle to Dragging): while no drag is live, attach one
    /// to the first card whose box contains the pointer, capturing the
    /// card's translation as the revert target.  A pointer-down during a
    /// live drag, or over empty space, changes nothing.
    pub fn mouse_pressed(&mut self)
        requires
            old(self).wf(),
        ensures
            final(self).wf(),
            same_config(*old(self), *final(self)),
            final(self).cards@ == old(self).cards@,
            final(self).order.0@ == old(self).order.0@,
            final(self).mouse_position == old(self).mouse_position,
            old(self).drag is Some ==> final(self).drag == old(self).drag,
            old(self).drag is None && old(self).first_hit_from(0) is None ==> final(self).drag
                is None,
            old(self).drag is None ==> (old(self).first_hit_from(0) matches Some(c) ==> final(self).drag == Some(
                CardBeingDragged {
                    card: c as usize,
                    original_translation: old(self).cards@[c].translation,
                },
            )),
    {
        if self.drag.is_none() {
            let hit = self.find_hit();
            match hit {
                Some(c) => {
                    let orig = self.cards[c].translation;
                    self.drag = Some(CardBeingDragged { card: c, original_translation: orig });
                },
                None => {},
            }
        }
    }

    /// Pointer-move while dragging: the dragged card tracks the pointer's
    /// world position, one depth level above the card's pre-drag depth so
    /// it renders above the other cards.  Without a live drag, a no-op.
    pub fn move_card(&mut self)
        requires
            old(self).wf(),
        ensures
            final(self).wf(),
            same_config(*old(self), *final(self)),
            final(self).order.0@ == old(self).order.0@,
            final(self).mouse_position == old(self).mouse_position,
            final(self).drag == old(self).drag,
            old(self).drag is None ==> final(self).cards@ == old(self).cards@,
            old(self).drag matches Some(d) ==> final(self).cards@ == old(self).cards@.update(
                d.card as int,
                Card {
                    translation: Pos3 {
                        x: (old(self).mouse_world_x()) as i64,
                        y: (old(self).mouse_world_y()) as i64,
                        z: (d.original_translation.z + 1) as i64,
                    },
                    placed: old(self).cards@[d.card as int].placed,
                },
            ),
    {
        let d = match self.drag {
            Some(d) => d,
            None => {
                return ;
            },
        };
        let world = mouse_translation(
            self.mouse_position,
            self.window_half,
            d.original_translation.z + 1,
        );
        let placed = self.cards[d.card].placed;
        self.cards[d.card] = Card { translation: world, placed };
        proof {
            assert(self.bounds_wf());
            assert forall|c: int|
                0 <= c < self.n_cards() && self.cards@[c].placed implies exists|k: int|
                #![trigger self.order.0@[k]]
                0 <= k < self.order.0@.len() && self.order.0@[k] as int == c by {
                assert(old(self).cards@[c].placed);
                let k = choose|k: int|
                    0 <= k < old(self).order.0@.len() && old(self).order.0@[k] as int == c;
                assert(0 <= k < self.order.0@.len() && self.order.0@[k] as int == c);
            }
            assert(self.order_wf());
            assert(self.drag_wf());
            assert(self.placement_current());
        }
    }

    /// The dragged card's box overlaps the battlefield's box: the drop
    /// acceptance test.  The battlefield box is as wide as its full row of
    /// slots and as tall as a card.
    pub open spec fn drop_hits_zone(self, d: CardBeingDragged) -> bool {
        let t = self.cards@[d.card as int].translation;
        &&& 2 * abs_i(t.x - self.battlefield.origin.x) < row_width(self.layout, self.capacity())
            + self.layout.card_width
        &&& 2 * abs_i(t.y - self.battlefield.origin.y) < 2 * self.layout.card_height
    }

    /// Direction factor of the drag: -1 when the card moved rightward from
    /// its pre-drag position, 1 when leftward, 0 when unmoved.
    pub open spec fn reorder_multiplier(self, d: CardBeingDragged) -> int {
        let t = self.cards@[d.card as int].translation;
        if t.x > d.original_translation.x {
            -1
        } else if t.x < d.original_translation.x {
            1
        } else {
            0
        }
    }

    /// Twice the dragged card's horizontal offset from the zone's left
    /// edge, biased by half a card width against the direction of motion,
    /// so the slot under the card's trailing edge decides (doubling keeps
    /// the half-width bias integral).
    pub open spec fn reorder_rel2(self, d: CardBeingDragged) -> int {
        let t = self.cards@[d.card as int].translation;
        2 * (t.x - self.battlefield.origin.x) + row_width(self.layout, self.capacity())
            + self.reorder_multiplier(d) * self.layout.card_width
    }

    /// Reorder index resolution: the offset divided by one slot width
    /// (card plus padding), floored, clamped to the occupied range
    /// `[0, count - 1]`.
    pub open spec fn reorder_index(self, d: CardBeingDragged) -> int {
        let len = self.order.0@.len() as int;
        if self.reorder_rel2(d) < 0 {
            0
        } else {
            let q = self.reorder_rel2(d) / (2 * slot_step(self.layout));
            if q > len - 1 {
                len - 1
            } else {
                q
            }
        }
    }

    /// A state with the same order, the same card count and the same
    /// placement flags keeps [`Board::order_wf`].
    proof fn lemma_order_wf_preserved(pre: Board, post: Board)
        requires
            pre.order_wf(),
            post.order.0@ == pre.order.0@,
            post.cards@.len() == pre.cards@.len(),
            post.capacity() == pre.capacity(),
            forall|c: int|
                #![trigger post.cards@[c]]
                0 <= c < pre.cards@.len() ==> post.cards@[c].placed == pre.cards@[c].placed,
        ensures
            post.order_wf(),
    {
        assert forall|c: int|
            0 <= c < post.n_cards() && post.cards@[c].placed implies exists|k: int|
            #![trigger post.order.0@[k]]
            0 <= k < post.order.0@.len() && post.order.0@[k] as int == c by {
            assert(pre.cards@[c].placed);
            let k = choose|k: int| 0 <= k < pre.order.0@.len() && pre.order.0@[k] as int == c;
            assert(0 <= k < post.order.0@.len() && post.order.0@[k] as int == c);
        }
    }

    /// Index of `card` in the order, scanning left to right.
    fn index_in_order(&self, card: usize) -> (r: Option<usize>)
        ensures
            r matches Some(i) ==> i < self.order.0@.len() && self.order.0@[i as int] == card,
            r is None ==> forall|k: int|
                #![trigger self.order.0@[k]]
                0 <= k < self.order.0@.len() ==> self.order.0@[k] != card,
    {
        let len = self.order.0.len();
        let mut i: usize = 0;
        while i < len
            invariant
                i <= len,
                len == self.order.0@.len(),
                forall|k: int|
                    #![trigger self.order.0@[k]]
                    0 <= k < i ==> self.order.0@[k] != card,
            decreases len - i,
        {
            if self.order.0[i] == card {
                return Some(i);
            }
            i += 1;
        }
        None
    }

    /// Reflow: recompute the world translation of every ordered card out
    /// of its current order index.  A batch recompute of the whole zone,
    /// run after any order mutation; unplaced cards are untouched.
    pub fn reorder_cards(&mut self)
        requires
            old(self).wf0(),
        ensures
            final(self).wf(),
            final(self).all_slots_current(),
            same_config(*old(self), *final(self)),
            final(self).order.0@ == old(self).order.0@,
            final(self).mouse_position == old(self).mouse_position,
            final(self).drag == old(self).drag,
            final(self).cards@.len() == old(self).cards@.len(),
            forall|c: int|
                #![trigger final(self).cards@[c]]
                0 <= c < old(self).cards@.len() ==> final(self).cards@[c].placed == old(self).cards@[c].placed,
            forall|c: int|
                #![trigger final(self).cards@[c]]
                0 <= c < old(self).cards@.len() && !old(self).cards@[c].placed ==> final(self).cards@[c] == old(self).cards@[c],
    {
        let cap = self.battlefield.number_of_cards;
        let len = self.order.0.len();
        let mut k: usize = 0;
        while k < len
            invariant
                old(self).wf0(),
                same_config(*old(self), *self),
                self.order.0@ == old(self).order.0@,
                self.mouse_position == old(self).mouse_position,
                self.drag == old(self).drag,
                cap == self.battlefield.number_of_cards,
                len == self.order.0@.len(),
                k <= len,
                self.cards@.len() == old(self).cards@.len(),
                forall|c: int|
                    #![trigger self.cards@[c]]
                    0 <= c < old(self).cards@.len() ==> self.cards@[c].placed == old(self).cards@[c].placed,
                forall|c: int|
                    #![trigger self.cards@[c]]
                    0 <= c < old(self).cards@.len() && !old(self).cards@[c].placed ==> self.cards@[c]
                        == old(self).cards@[c],
                forall|c: int|
                    #![trigger self.cards@[c]]
                    0 <= c < self.cards@.len() ==> Board::card_value_bounded(
                        self.cards@[c],
                        self.is_dragged(c),
                    ),
                forall|j: int|
                    #![trigger self.order.0@[j]]
                    0 <= j < k ==> self.at_slot(self.order.0@[j] as int, j),
            decreases len - k,
        {
            let id = self.order.0[k];
            let local = card_translation(&self.layout, cap, k);
            let t = Pos3 {
                x: self.battlefield.origin.x + local.x,
                y: self.battlefield.origin.y + local.y,
                z: self.battlefield.origin.z + local.z,
            };
            let placed = self.cards[id].placed;
            self.cards[id] = Card { translation: t, placed };
            proof {
                assert forall|j: int|
                    0 <= j < k + 1 implies self.at_slot(
                    #[trigger] self.order.0@[j] as int,
                    j,
                ) by {
                    if j < k {
                        assert(self.order.0@[j] != self.order.0@[k as int]);
                    }
                }
            }
            k += 1;
        }
        proof {
            assert forall|c: int|
                0 <= c < self.n_cards() && self.cards@[c].placed implies exists|kk: int|
                #![trigger self.order.0@[kk]]
                0 <= kk < self.order.0@.len() && self.order.0@[kk] as int == c by {
                assert(old(self).cards@[c].placed);
                let kk = choose|kk: int|
                    0 <= kk < old(self).order.0@.len() && old(self).order.0@[kk] as int == c;
                assert(0 <= kk < self.order.0@.len() && self.order.0@[kk] as int == c);
            }
            assert(self.order_wf());
            assert(self.bounds_wf());
            assert(self.drag_wf());
            assert(self.all_slots_current());
        }
    }

    /// Move the placed card `card` to order index `to`: remove its old
    /// entry, re-insert it at `to`, and reflow the zone.  The count and
    /// the multiset of ordered cards never change.
    fn apply_reorder(&mut self, card: usize, to: usize)
        requires
            old(self).wf0(),
            old(self).drag is None,
            (card as int) < old(self).n_cards(),
            old(self).cards@[card as int].placed,
            to < old(self).order.0@.len(),
            forall|k: int|
                #![trigger old(self).order.0@[k]]
                0 <= k < old(self).order.0@.len() && old(self).order.0@[k] != card ==> old(self).at_slot(old(self).order.0@[k] as int, k),
        ensures
            final(self).wf(),
            final(self).all_slots_current(),
            same_config(*old(self), *final(self)),
            final(self).mouse_position == old(self).mouse_position,
            final(self).drag is None,
            final(self).cards@.len() == old(self).cards@.len(),
            final(self).order.0@.len() == old(self).order.0@.len(),
            final(self).order.0@.to_multiset() == old(self).order.0@.to_multiset(),
            exists|from: int|
                {
                    &&& 0 <= from < old(self).order.0@.len()
                    &&& old(self).order.0@[from] == card
                    &&& final(self).order.0@ == old(self).order.0@.remove(from).insert(
                        to as int,
                        card,
                    )
                },
            final(self).order.0@[to as int] == card,
            final(self).at_slot(card as int, to as int),
            forall|c: int|
                #![trigger final(self).cards@[c]]
                0 <= c < old(self).cards@.len() ==> final(self).cards@[c].placed == old(self).cards@[c].placed,
            forall|c: int|
                #![trigger final(self).cards@[c]]
                0 <= c < old(self).cards@.len() && !old(self).cards@[c].placed ==> final(self).cards@[c] == old(self).cards@[c],
    {
        let from_opt = self.index_in_order(card);
        match from_opt {
            Some(from) => {
                let ghost s0 = self.order.0@;
                self.order.0.remove(from);
                self.order.0.insert(to, card);
                proof {
                    broadcast use vstd::seq_lib::group_to_multiset_ensures;
                    broadcast use vstd::multiset::group_multiset_axioms;

                    let s1 = s0.remove(from as int);
                    let s2 = s1.insert(to as int, card);
                    assert(self.order.0@ == s2);
                    s0.remove_ensures(from as int);
                    s1.insert_ensures(to as int, card);
                    // the removed entry was the only occurrence
                    assert forall|k: int| 0 <= k < s1.len() implies s1[k] != card by {
                        if k < from {
                            assert(s1[k] == s0[k]);
                        } else {
                            assert(s1[k] == s0[k + 1]);
                        }
                    }
                    assert forall|k1: int, k2: int|
                        0 <= k1 < k2 < s2.len() implies s2[k1] != s2[k2] by {
                        if k1 < to && k2 < to {
                            assert(s2[k1] == s1[k1] && s2[k2] == s1[k2]);
                        } else if k1 < to && k2 == to {
                            assert(s2[k1] == s1[k1] && s2[k2] == card);
                        } else if k1 < to {
                            assert(s2[k1] == s1[k1] && s2[k2] == s1[k2 - 1]);
                        } else if k1 == to {
                            assert(s2[k1] == card && s2[k2] == s1[k2 - 1]);
                        } else {
                            assert(s2[k1] == s1[k1 - 1] && s2[k2] == s1[k2 - 1]);
                        }
                    }
                    // the multiset of entries is unchanged
                    assert(s2.to_multiset() =~= s0.to_multiset());
                    // every placed card is still in the order
                    assert forall|c: int|
                        0 <= c < self.n_cards() && self.cards@[c].placed implies exists|k: int|
                        #![trigger self.order.0@[k]]
                        0 <= k < self.order.0@.len() && self.order.0@[k] as int == c by {
                        let k0 = choose|k0: int| 0 <= k0 < s0.len() && s0[k0] as int == c;
                        assert(s0.to_multiset().count(s0[k0]) > 0);
                        assert(s2.contains(s0[k0]));
                        let k = choose|k: int| 0 <= k < s2.len() && s2[k] == s0[k0];
                        assert(0 <= k < self.order.0@.len() && self.order.0@[k] as int == c);
                    }
                    assert(self.order_wf());
                    assert(self.bounds_wf());
                    assert(self.wf0());
                }
                self.reorder_cards();
                proof {
                    broadcast use vstd::seq_lib::group_to_multiset_ensures;
                    broadcast use vstd::multiset::group_multiset_axioms;

                    let s1 = s0.remove(from as int);
                    let s2 = s1.insert(to as int, card);
                    s0.remove_ensures(from as int);
                    s1.insert_ensures(to as int, card);
                    assert(s2.to_multiset() =~= s0.to_multiset());
                    assert(final(self).order.0@[to as int] == card);
                }
            },
            None => {
                // unreachable: a placed card is always in the order
                proof {
                    assert(false);
                }
            },
        }
    }

    /// Append the unplaced card `card` to the order and reflow the zone:
    /// it lands on the first free slot, and no other card moves.
    fn apply_append(&mut self, card: usize)
        requires
            old(self).wf(),
            old(self).drag is None,
            (card as int) < old(self).n_cards(),
            !old(self).cards@[card as int].placed,
            old(self).order.0@.len() < old(self).capacity(),
        ensures
            final(self).wf(),
            final(self).all_slots_current(),
            same_config(*old(self), *final(self)),
            final(self).mouse_position == old(self).mouse_position,
            final(self).drag is None,
            final(self).cards@.len() == old(self).cards@.len(),
            final(self).order.0@ == old(self).order.0@.push(card),
            final(self).cards@[card as int].placed,
            final(self).at_slot(card as int, old(self).order.0@.len() as int),
            forall|c: int|
                #![trigger final(self).cards@[c]]
                0 <= c < old(self).cards@.len() && c != card ==> final(self).cards@[c] == old(self).cards@[c],
    {
        let tr = self.cards[card].translation;
        self.cards[card] = Card { translation: tr, placed: true };
        let ghost s0 = self.order.0@;
        self.order.0.push(card);
        proof {
            assert forall|c: int|
                0 <= c < self.n_cards() && self.cards@[c].placed implies exists|k: int|
                #![trigger self.order.0@[k]]
                0 <= k < self.order.0@.len() && self.order.0@[k] as int == c by {
                if c == card {
                    assert(self.order.0@[s0.len() as int] as int == c);
                } else {
                    assert(old(self).cards@[c].placed);
                    let k = choose|k: int| 0 <= k < s0.len() && s0[k] as int == c;
                    assert(self.order.0@[k] as int == c);
                }
            }
            assert(self.order_wf());
            assert(self.bounds_wf());
            assert(self.wf0());
        }
        self.reorder_cards();
        proof {
            // no other card moves: its slot index is unchanged, so the
            // reflow rewrote the position it already had
            assert forall|c: int|
                0 <= c < old(self).cards@.len() && c != card implies final(self).cards@[c] == old(self).cards@[c] by {
                if old(self).cards@[c].placed {
                    let k = choose|k: int| 0 <= k < s0.len() && s0[k] as int == c;
                    assert(self.order.0@[k] as int == c);
                    assert(self.at_slot(c, k));
                    assert(old(self).at_slot(c, k));
                }
            }
        }
    }

    /// Pointer-up (Dragging to Idle): detach the drag and resolve the
    /// drop.
    ///
    /// If the dragged card's box overlaps the battlefield's box, the card
    /// is placed there: a card not yet placed is appended to the order
    /// (when the zone still has a free slot; a drop into a full zone is
    /// rejected so the order never outgrows the capacity), a card already
    /// placed is moved to the index resolved from its horizontal
    /// displacement, and every ordered card's position is then recomputed.
    /// A drop that misses the zone reverts the card's translation exactly
    /// to its pre-drag value and leaves the order untouched.  Without a
    /// live drag, a no-op.
    pub fn mouse_released(&mut self)
        requires
            old(self).wf(),
        ensures
            final(self).wf(),
            final(self).drag is None,
            final(self).all_slots_current(),
            same_config(*old(self), *final(self)),
            final(self).mouse_position == old(self).mouse_position,
            final(self).cards@.len() == old(self).cards@.len(),
            old(self).drag is None ==> final(self).cards@ == old(self).cards@ && final(self).order.0@ == old(self).order.0@,
            // A drop that misses the zone, or that would overfill it:
            // bit-exact revert to the pre-drag translation, order untouched.
            old(self).drag matches Some(d) ==> (!(old(self).drop_hits_zone(d) && (old(self).cards@[d.card as int].placed || old(self).order.0@.len() < old(self).capacity()))
                ==> {
                &&& final(self).order.0@ == old(self).order.0@
                &&& final(self).cards@ == old(self).cards@.update(
                    d.card as int,
                    Card {
                        translation: d.original_translation,
                        placed: old(self).cards@[d.card as int].placed,
                    },
                )
            }),
            // Accepted drop of a card that was not yet placed: appended at
            // the end of the order, every other card untouched; in
            // particular a drop on an empty zone lands on slot 0.
            old(self).drag matches Some(d) ==> ((old(self).drop_hits_zone(d) && !old(self).cards@[d.card as int].placed && old(self).order.0@.len() < old(self).capacity())
                ==> {
                &&& final(self).order.0@ == old(self).order.0@.push(d.card)
                &&& final(self).cards@[d.card as int].placed
                &&& final(self).at_slot(d.card as int, old(self).order.0@.len() as int)
                &&& forall|c: int|
                    #![trigger final(self).cards@[c]]
                    0 <= c < old(self).cards@.len() && c != d.card ==> final(self).cards@[c]
                        == old(self).cards@[c]
                &&& (old(self).order.0@.len() == 0 ==> final(self).order.0@.len() == 1 && final(self).order.0@[0] == d.card && final(self).at_slot(d.card as int, 0))
            }),
            // Accepted drop of a card already placed: reorder.  The old
            // entry comes out, the card goes back in at the resolved
            // index, the count and the multiset of ordered cards never
            // change, and every ordered card sits on its recomputed slot.
            old(self).drag matches Some(d) ==> ((old(self).drop_hits_zone(d) && old(self).cards@[d.card as int].placed) ==> {
                &&& final(self).order.0@.len() == old(self).order.0@.len()
                &&& final(self).order.0@.to_multiset() == old(self).order.0@.to_multiset()
                &&& exists|from: int|
                    {
                        &&& 0 <= from < old(self).order.0@.len()
                        &&& old(self).order.0@[from] == d.card
                        &&& final(self).order.0@ == old(self).order.0@.remove(from).insert(
                            old(self).reorder_index(d),
                            d.card,
                        )
                    }
                &&& final(self).order.0@[old(self).reorder_index(d)] == d.card
                &&& final(self).at_slot(d.card as int, old(self).reorder_index(d))
                &&& forall|c: int|
                    #![trigger final(self).cards@[c]]
                    0 <= c < old(self).cards@.len() ==> final(self).cards@[c].placed == old(self).cards@[c].placed
                &&& forall|c: int|
                    #![trigger final(self).cards@[c]]
                    0 <= c < old(self).cards@.len() && !old(self).cards@[c].placed ==> final(self).cards@[c] == old(self).cards@[c]
            }),
    {
        let d = match self.drag {
            Some(dd) => dd,
            None => {
                return ;
            },
        };
        self.drag = None;
        let t = self.cards[d.card].translation;
        let w = area_with(&self.layout, self.battlefield.number_of_cards);
        let hit = aabb_overlap(
            Pos2 { x: self.battlefield.origin.x, y: self.battlefield.origin.y },
            Extent2 { x: w, y: self.layout.card_height },
            Pos2 { x: t.x, y: t.y },
            Extent2 { x: self.layout.card_width, y: self.layout.card_height },
        );
        proof {
            assert(hit == old(self).drop_hits_zone(d));
        }
        let placed = self.cards[d.card].placed;
        let len = self.order.0.len();
        if hit && placed {
            // Resolve the target index from the drop position, then put
            // the card back on a slot position before the order moves.
            proof {
                assert(old(self).cards@[d.card as int].placed);
                assert(len >= 1);
            }
            let bias: i64 = if t.x > d.original_translation.x {
                -self.layout.card_width
            } else if t.x < d.original_translation.x {
                self.layout.card_width
            } else {
                0
            };
            let rel2: i64 = 2 * (t.x - self.battlefield.origin.x) + w + bias;
            let to: usize = if rel2 < 0 {
                0
            } else {
                let step2: u64 = ((self.layout.card_width + self.layout.padding) as u64) * 2;
                let q: u64 = (rel2 as u64) / step2;
                if q >= (len as u64) - 1 {
                    len - 1
                } else {
                    q as usize
                }
            };
            proof {
                assert(rel2 == old(self).reorder_rel2(d));
                assert(to as int == old(self).reorder_index(d));
            }
            self.cards[d.card] = Card { translation: d.original_translation, placed: true };
            proof {
                Board::lemma_order_wf_preserved(*old(self), *self);
                assert(self.bounds_wf());
                assert(self.wf0());
            }
            self.apply_reorder(d.card, to);
        } else if hit && len < self.battlefield.number_of_cards {
            // The card enters the zone: park it on its pre-drag
            // translation, then append it to the order.
            self.cards[d.card] = Card { translation: d.original_translation, placed: false };
            proof {
                Board::lemma_order_wf_preserved(*old(self), *self);
                assert(self.bounds_wf());
                assert(self.placement_current());
                assert(self.wf());
            }
            self.apply_append(d.card);
        } else {
            // The drop missed the zone, or the zone is full: bit-exact
            // revert.
            self.cards[d.card] = Card { translation: d.original_translation, placed };
            proof {
                Board::lemma_order_wf_preserved(*old(self), *self);
                assert(self.bounds_wf());
                assert forall|k: int|
                    0 <= k < self.order.0@.len() implies self.at_slot(
                    #[trigger] self.order.0@[k] as int,
                    k,
                ) by {
                    if self.order.0@[k] as int == d.card {
                        assert(old(self).is_slot_pos(d.original_translation, k));
                    }
                }
                assert(self.wf());
            }
        }
    }

    /// Record the newest pointer position, in window coordinates.
    pub fn update_mouse_position(&mut self, position: Pos2)
        requires
            old(self).wf(),
            -WORLD_LIMIT <= position.x <= WORLD_LIMIT,
            -WORLD_LIMIT <= position.y <= WORLD_LIMIT,
        ensures
            final(self).wf(),
            same_config(*old(self), *final(self)),
            final(self).mouse_position == position,
            final(self).cards@ == old(self).cards@,
            final(self).order.0@ == old(self).order.0@,
            final(self).drag == old(self).drag,
    {
        self.mouse_position = position;
    }
}

} // verus!

