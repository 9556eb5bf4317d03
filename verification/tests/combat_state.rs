use card_table::combat::Card;
use card_table::combat::CurrentPlayerState;
use card_table::combat::Deck;
use card_table::combat::MEMORY_CACHE_INITIAL_VALUE;
use card_table::combat::PLAY_HAND_LIMIT;
use card_table::combat::Player;
use card_table::combat::PlayerNumber;
use card_table::combat::SYSTEM_INTEGRITY_INITIAL_VALUE;
use card_table::combat::TurnState;
use card_table::combat::spawn_player;

#[test]
fn player_one_opens_the_match() {
    assert_eq!(PlayerNumber::default(), PlayerNumber::One);
    assert_eq!(CurrentPlayerState::default(), CurrentPlayerState(PlayerNumber::One));
}

#[test]
fn a_turn_opens_with_the_draw_phase() {
    assert_eq!(TurnState::default(), TurnState::DrawCards);
}

#[test]
fn spawned_players_start_with_full_counters() {
    let one = spawn_player(PlayerNumber::One);
    assert_eq!(one.player, Player(PlayerNumber::One));
    assert_eq!(one.system_integrity.0, SYSTEM_INTEGRITY_INITIAL_VALUE);
    assert_eq!(one.memory_cache.0, MEMORY_CACHE_INITIAL_VALUE);
    let two = spawn_player(PlayerNumber::Two);
    assert_eq!(two.player, Player(PlayerNumber::Two));
    assert_eq!(two.system_integrity.0, 3);
    assert_eq!(two.memory_cache.0, 3);
}

#[test]
fn decks_hold_cards_by_cost() {
    let deck = Deck(vec![Card { memory_cost: 1 }, Card { memory_cost: 2 }]);
    assert_eq!(deck.0.len(), 2);
    assert_eq!(deck.0[0].memory_cost, 1);
    assert!(deck.0.len() <= PLAY_HAND_LIMIT as usize);
}
