//! Slot layout arithmetic: given a zone capacity `n` and a slot index `i`,
//! where does slot `i`'s center sit, such that the `n` slots form one
//! contiguous, horizontally centered row with fixed inter-slot padding?
//!
//! Everything is computed in integer layout units.  The caller picks the
//! unit; the only demand is that one card width plus one padding amounts to
//! an even number of units, so that slot centers stay integral even when
//! the capacity is even.  A unit of half a pixel always satisfies this for
//! pixel-valued art.

use vstd::prelude::*;

use crate::geometry::Pos3;

verus! {

/// Largest zone capacity the layout arithmetic accepts.
pub const MAX_ZONE_CAPACITY: usize = 4096;

/// Largest card dimension (width, height, padding), in layout units.
pub const MAX_CARD_DIM: i64 = 1048576;

/// How many cards the battlefield row holds.
pub const BATTLEFIELD_NUMBER_OF_CARDS: usize = 7;

/// How many cards the player hand row holds.
pub const PLAYER_HAND_NUMBER_OF_CARDS: usize = 5;

/// Card extent, in layout units of half a pixel (96 by 144 pixels).
pub const CARD_WIDTH: i64 = 192;

/// See [`CARD_WIDTH`].
pub const CARD_HEIGHT: i64 = 288;

/// Gap between neighboring slots, in layout units (1 pixel).
pub const CARD_PADDING: i64 = 2;

/// Margin between a card row and the screen edge or center line, in layout
/// units (16 pixels).
pub const CARD_MARGIN: i64 = 32;

/// The card and padding dimensions a zone is laid out with.
#[derive(Clone, Copy, Debug, PartialEq, Eq, Structural)]
pub struct LayoutParams {
    pub card_width: i64,
    pub card_height: i64,
    pub padding: i64,
}

impl LayoutParams {
    /// Dimensions are positive (padding may be zero), small enough that a
    /// full row fits comfortably in 64-bit arithmetic, and a slot step
    /// (card width plus padding) spans an even number of units.
    pub open spec fn wf(self) -> bool {
        &&& 0 < self.card_width <= MAX_CARD_DIM
        &&& 0 < self.card_height <= MAX_CARD_DIM
        &&& 0 <= self.padding <= MAX_CARD_DIM
        &&& (self.card_width + self.padding) % 2 == 0
    }

    /// The layout the game uses: half-pixel units for 96x144-pixel cards
    /// with 1 pixel of padding.
    pub fn game_default() -> (lay: LayoutParams)
        ensures
            lay == (LayoutParams {
                card_width: CARD_WIDTH,
                card_height: CARD_HEIGHT,
                padding: CARD_PADDING,
            }),
            lay.wf(),
    {
        LayoutParams { card_width: CARD_WIDTH, card_height: CARD_HEIGHT, padding: CARD_PADDING }
    }
}

/// Total width of a contiguous row of `n` cards: `n` card widths and `n - 1`
/// paddings.
pub open spec fn row_width(lay: LayoutParams, n: int) -> int {
    n * lay.card_width + (n - 1) * lay.padding
}

/// Distance between the centers of two neighboring slots.
pub open spec fn slot_step(lay: LayoutParams) -> int {
    lay.card_width + lay.padding
}

/// Center x of slot `i` in a row of `n` slots centered about x = 0.
///
/// The closed form `(step / 2) * (2 i - n + 1)` equals
/// `-row_width / 2 + card_width / 2 + i * step`.
pub open spec fn slot_x(lay: LayoutParams, n: int, i: int) -> int {
    (slot_step(lay) / 2) * (2 * i - n + 1)
}

/// Row widths stay within `MAX_ZONE_CAPACITY * (MAX_CARD_DIM + MAX_CARD_DIM)`.
proof fn lemma_row_width_bounds(lay: LayoutParams, n: int)
    requires
        lay.wf(),
        1 <= n <= MAX_ZONE_CAPACITY,
    ensures
        0 < row_width(lay, n) <= n * (MAX_CARD_DIM + MAX_CARD_DIM),
        row_width(lay, n) <= 8589934592,
{
    assert(0 < n * lay.card_width + (n - 1) * lay.padding <= n * (MAX_CARD_DIM + MAX_CARD_DIM))
        by (nonlinear_arith)
        requires
            1 <= n,
            0 < lay.card_width <= MAX_CARD_DIM,
            0 <= lay.padding <= MAX_CARD_DIM,
    ;
    assert(n * (MAX_CARD_DIM + MAX_CARD_DIM) <= 8589934592) by (nonlinear_arith)
        requires
            1 <= n <= MAX_ZONE_CAPACITY,
    ;
}

/// Slot centers stay within half of `MAX_ZONE_CAPACITY * 2 * MAX_CARD_DIM`.
proof fn lemma_slot_x_bounds(lay: LayoutParams, n: int, i: int)
    requires
        lay.wf(),
        1 <= n <= MAX_ZONE_CAPACITY,
        0 <= i < n,
    ensures
        -8589934592 <= slot_x(lay, n, i) <= 8589934592,
{
    let h = slot_step(lay) / 2;
    assert(0 < h <= MAX_CARD_DIM);
    assert(-(2 * n) <= 2 * i - n + 1 <= 2 * n);
    assert(-(h * (2 * n)) <= h * (2 * i - n + 1) <= h * (2 * n)) by (nonlinear_arith)
        requires
            0 < h,
            -(2 * n) <= 2 * i - n + 1 <= 2 * n,
    ;
    assert(h * (2 * n) <= 8589934592) by (nonlinear_arith)
        requires
            0 < h <= MAX_CARD_DIM,
            1 <= n <= MAX_ZONE_CAPACITY,
    ;
}

/// Slot centers are strictly increasing in the slot index: in a row of `n`
/// slots, slot `i` sits strictly left of slot `j` whenever `i < j`.
pub proof fn lemma_slot_x_strictly_increasing(lay: LayoutParams, n: int, i: int, j: int)
    requires
        lay.wf(),
        0 <= i < j < n,
    ensures
        slot_x(lay, n, i) < slot_x(lay, n, j),
{
    let h = slot_step(lay) / 2;
    assert(0 < h);
    assert(h * (2 * j - n + 1) - h * (2 * i - n + 1) == h * (2 * (j - i))) by (nonlinear_arith);
    assert(h * (2 * (j - i)) > 0) by (nonlinear_arith)
        requires
            0 < h,
            0 < j - i,
    ;
}

/// Slot centers are symmetric about x = 0: slots `i` and `n - 1 - i` are
/// mirror images, so in particular slot 0 and slot `n - 1` are equidistant
/// from the row center.
pub proof fn lemma_slot_x_symmetric(lay: LayoutParams, n: int, i: int)
    requires
        lay.wf(),
        0 <= i < n,
    ensures
        slot_x(lay, n, i) + slot_x(lay, n, n - 1 - i) == 0,
{
    let h = slot_step(lay) / 2;
    assert((2 * i - n + 1) + (2 * (n - 1 - i) - n + 1) == 0);
    assert(h * (2 * i - n + 1) + h * (2 * (n - 1 - i) - n + 1) == h * ((2 * i - n + 1) + (2 * (n
        - 1 - i) - n + 1))) by (nonlinear_arith);
}

/// Width of a contiguous centered row of `number_of_cards` slots.
pub fn area_with(lay: &LayoutParams, number_of_cards: usize) -> (w: i64)
    requires
        lay.wf(),
        1 <= number_of_cards <= MAX_ZONE_CAPACITY,
    ensures
        w == row_width(*lay, number_of_cards as int),
        0 < w <= 8589934592,
{
    proof {
        lemma_row_width_bounds(*lay, number_of_cards as int);
    }
    let n = number_of_cards as i64;
    n * lay.card_width + (n - 1) * lay.padding
}

/// Position of slot `position`'s center in a zone of `number_of_cards`
/// slots, in the zone's own coordinates: the row is centered about x = 0,
/// sits on the zone's horizontal axis, and one depth level above it.
pub fn card_translation(lay: &LayoutParams, number_of_cards: usize, position: usize) -> (t: Pos3)
    requires
        lay.wf(),
        number_of_cards <= MAX_ZONE_CAPACITY,
        position < number_of_cards,
    ensures
        t.x == slot_x(*lay, number_of_cards as int, position as int),
        t.y == 0,
        t.z == 1,
        -8589934592 <= t.x <= 8589934592,
{
    proof {
        lemma_slot_x_bounds(*lay, number_of_cards as int, position as int);
    }
    let half_step = ((lay.card_width + lay.padding) as u64 / 2) as i64;
    let m: i64 = 2 * (position as i64) - (number_of_cards as i64) + 1;
    assert(half_step == slot_step(*lay) / 2);
    assert(half_step * m == slot_x(*lay, number_of_cards as int, position as int)) by {
        assert(-8589934592 <= (slot_step(*lay) / 2) * (2 * (position as int) - (number_of_cards
            as int) + 1) <= 8589934592);
    }
    Pos3 { x: half_step * m, y: 0, z: 1 }
}

} // verus!

