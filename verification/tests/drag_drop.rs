use card_table::cards::Board;
use card_table::cards::CardArea;
use card_table::geometry::Extent2;
use card_table::geometry::Pos2;
use card_table::geometry::Pos3;
use card_table::layout::LayoutParams;
use card_table::layout::card_translation;

const WINDOW_HALF_X: i64 = 800;
const WINDOW_HALF_Y: i64 = 600;
const HAND_Y: i64 = -1000;

fn make_board(hand_cards: usize) -> Board {
    let lay = LayoutParams::game_default();
    Board::new(
        lay,
        CardArea { number_of_cards: 7, origin: Pos3 { x: 0, y: 0, z: 0 } },
        CardArea { number_of_cards: hand_cards, origin: Pos3 { x: 0, y: HAND_Y, z: 0 } },
        Extent2 { x: WINDOW_HALF_X, y: WINDOW_HALF_Y },
    )
}

fn point_at(b: &mut Board, world_x: i64, world_y: i64) {
    b.update_mouse_position(Pos2 { x: world_x + WINDOW_HALF_X, y: world_y + WINDOW_HALF_Y });
}

fn hand_slot_x(hand_cards: usize, i: usize) -> i64 {
    card_translation(&LayoutParams::game_default(), hand_cards, i).x
}

fn battlefield_slot_x(i: usize) -> i64 {
    card_translation(&LayoutParams::game_default(), 7, i).x
}

/// Drag the first `count` cards of a hand of `hand_cards` onto the
/// battlefield center, left to right.
fn place_first(b: &mut Board, hand_cards: usize, count: usize) {
    for i in 0..count {
        point_at(b, hand_slot_x(hand_cards, i), HAND_Y);
        b.mouse_pressed();
        assert!(b.drag.is_some());
        point_at(b, 0, 0);
        b.move_card();
        b.mouse_released();
        assert!(b.drag.is_none());
    }
}

#[test]
fn new_board_lays_out_the_hand() {
    let b = make_board(5);
    assert_eq!(b.cards.len(), 5);
    assert_eq!(b.order.0.len(), 0);
    assert!(b.drag.is_none());
    for i in 0..5usize {
        assert!(!b.cards[i].placed);
        assert_eq!(b.cards[i].translation, Pos3 { x: hand_slot_x(5, i), y: HAND_Y, z: 1 });
    }
}

#[test]
fn press_attaches_drag_and_captures_revert_target() {
    let mut b = make_board(5);
    point_at(&mut b, hand_slot_x(5, 2), HAND_Y);
    b.mouse_pressed();
    let d = b.drag.expect("pointer-down on a card attaches a drag");
    assert_eq!(d.card, 2);
    assert_eq!(d.original_translation, Pos3 { x: hand_slot_x(5, 2), y: HAND_Y, z: 1 });
}

#[test]
fn press_over_empty_space_attaches_nothing() {
    let mut b = make_board(5);
    point_at(&mut b, 3000, 3000);
    b.mouse_pressed();
    assert!(b.drag.is_none());
}

#[test]
fn press_during_drag_is_ignored() {
    let mut b = make_board(5);
    point_at(&mut b, hand_slot_x(5, 1), HAND_Y);
    b.mouse_pressed();
    point_at(&mut b, hand_slot_x(5, 3), HAND_Y);
    b.mouse_pressed();
    let d = b.drag.expect("the first drag stays attached");
    assert_eq!(d.card, 1);
}

#[test]
fn dragged_card_tracks_the_pointer() {
    let mut b = make_board(5);
    point_at(&mut b, hand_slot_x(5, 0), HAND_Y);
    b.mouse_pressed();
    point_at(&mut b, 123, -456);
    b.move_card();
    // the card follows the pointer one depth level above its pre-drag depth
    assert_eq!(b.cards[0].translation, Pos3 { x: 123, y: -456, z: 2 });
}

#[test]
fn drop_outside_reverts_position_exactly() {
    let mut b = make_board(5);
    let before = b.cards[2].translation;
    point_at(&mut b, hand_slot_x(5, 2), HAND_Y);
    b.mouse_pressed();
    point_at(&mut b, 3000, 3000);
    b.move_card();
    b.mouse_released();
    assert!(b.drag.is_none());
    assert_eq!(b.cards[2].translation, before);
    assert!(!b.cards[2].placed);
    assert_eq!(b.order.0.len(), 0);
}

#[test]
fn drop_outside_leaves_other_cards_alone() {
    let mut b = make_board(5);
    let before: Vec<Pos3> = (0..5).map(|i| b.cards[i].translation).collect();
    point_at(&mut b, hand_slot_x(5, 2), HAND_Y);
    b.mouse_pressed();
    point_at(&mut b, 3000, 3000);
    b.move_card();
    b.mouse_released();
    for i in 0..5usize {
        assert_eq!(b.cards[i].translation, before[i]);
    }
}

#[test]
fn append_to_empty_zone_lands_on_slot_zero() {
    let mut b = make_board(5);
    point_at(&mut b, hand_slot_x(5, 0), HAND_Y);
    b.mouse_pressed();
    point_at(&mut b, 0, 0);
    b.move_card();
    b.mouse_released();
    assert_eq!(b.order.0, vec![0]);
    assert!(b.cards[0].placed);
    assert_eq!(b.cards[0].translation, Pos3 { x: battlefield_slot_x(0), y: 0, z: 1 });
}

#[test]
fn appends_fill_slots_left_to_right() {
    let mut b = make_board(5);
    place_first(&mut b, 5, 5);
    assert_eq!(b.order.0, vec![0, 1, 2, 3, 4]);
    for k in 0..5usize {
        let id = b.order.0[k];
        assert!(b.cards[id].placed);
        assert_eq!(b.cards[id].translation, Pos3 { x: battlefield_slot_x(k), y: 0, z: 1 });
    }
}

#[test]
fn drop_into_full_zone_is_rejected() {
    let mut b = make_board(8);
    place_first(&mut b, 8, 7);
    assert_eq!(b.order.0.len(), 7);
    let before = b.cards[7].translation;
    point_at(&mut b, hand_slot_x(8, 7), HAND_Y);
    b.mouse_pressed();
    assert_eq!(b.drag.expect("eighth card picked up").card, 7);
    point_at(&mut b, 0, 0);
    b.move_card();
    b.mouse_released();
    assert_eq!(b.order.0.len(), 7);
    assert!(!b.cards[7].placed);
    assert_eq!(b.cards[7].translation, before);
}

#[test]
fn reorder_drag_right_moves_entry_and_keeps_count() {
    // capacity 7, card at order index 3 dragged right so that the
    // resolved index is 5: entry 3 comes out, goes back in at 5, the
    // count stays 7, and every slot position is recomputed
    let mut b = make_board(7);
    place_first(&mut b, 7, 7);
    assert_eq!(b.order.0, vec![0, 1, 2, 3, 4, 5, 6]);
    point_at(&mut b, battlefield_slot_x(3), 0);
    b.mouse_pressed();
    assert_eq!(b.drag.expect("card at slot 3 picked up").card, 3);
    point_at(&mut b, battlefield_slot_x(5), 0);
    b.move_card();
    b.mouse_released();
    assert_eq!(b.order.0, vec![0, 1, 2, 4, 5, 3, 6]);
    assert_eq!(b.order.0.len(), 7);
    for k in 0..7usize {
        let id = b.order.0[k];
        assert!(b.cards[id].placed);
        assert_eq!(b.cards[id].translation, Pos3 { x: battlefield_slot_x(k), y: 0, z: 1 });
    }
}

#[test]
fn reorder_drag_left_moves_entry_and_keeps_count() {
    let mut b = make_board(7);
    place_first(&mut b, 7, 7);
    point_at(&mut b, battlefield_slot_x(4), 0);
    b.mouse_pressed();
    assert_eq!(b.drag.expect("card at slot 4 picked up").card, 4);
    point_at(&mut b, battlefield_slot_x(1), 0);
    b.move_card();
    b.mouse_released();
    assert_eq!(b.order.0.len(), 7);
    assert_eq!(b.order.0, vec![0, 4, 1, 2, 3, 5, 6]);
    for k in 0..7usize {
        let id = b.order.0[k];
        assert_eq!(b.cards[id].translation.x, battlefield_slot_x(k));
    }
}

#[test]
fn reorder_far_right_clamps_to_last_slot() {
    let mut b = make_board(5);
    place_first(&mut b, 5, 5);
    assert_eq!(b.order.0, vec![0, 1, 2, 3, 4]);
    point_at(&mut b, battlefield_slot_x(0), 0);
    b.mouse_pressed();
    // drop near the right edge of the zone: the candidate index exceeds
    // the occupied range and clamps to the last occupied slot
    point_at(&mut b, 660, 0);
    b.move_card();
    b.mouse_released();
    assert_eq!(b.order.0, vec![1, 2, 3, 4, 0]);
}

#[test]
fn reordered_placed_card_dropped_outside_reverts_to_its_slot() {
    let mut b = make_board(5);
    place_first(&mut b, 5, 5);
    point_at(&mut b, battlefield_slot_x(2), 0);
    b.mouse_pressed();
    point_at(&mut b, -3000, 3000);
    b.move_card();
    b.mouse_released();
    assert_eq!(b.order.0, vec![0, 1, 2, 3, 4]);
    assert_eq!(b.cards[2].translation, Pos3 { x: battlefield_slot_x(2), y: 0, z: 1 });
}

#[test]
fn release_without_drag_changes_nothing() {
    let mut b = make_board(5);
    let before: Vec<Pos3> = (0..5).map(|i| b.cards[i].translation).collect();
    point_at(&mut b, 0, 0);
    b.mouse_released();
    assert!(b.drag.is_none());
    assert_eq!(b.order.0.len(), 0);
    for i in 0..5usize {
        assert_eq!(b.cards[i].translation, before[i]);
    }
}

#[test]
fn reflow_recomputes_every_placed_position() {
    let mut b = make_board(5);
    place_first(&mut b, 5, 5);
    b.reorder_cards();
    for k in 0..5usize {
        let id = b.order.0[k];
        assert_eq!(b.cards[id].translation, Pos3 { x: battlefield_slot_x(k), y: 0, z: 1 });
    }
}
