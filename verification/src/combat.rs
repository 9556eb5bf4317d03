//! Turn-based combat bookkeeping: the two players with their integrity
//! and memory-cache counters, their decks, the turn phases, and the
//! constants the rules start from.

use vstd::prelude::*;

verus! {

/// Memory cache each player starts a match with.
pub const MEMORY_CACHE_INITIAL_VALUE: u8 = 3;

/// System integrity each player starts a match with.
pub const SYSTEM_INTEGRITY_INITIAL_VALUE: u8 = 3;

/// Cards drawn when the match begins.
pub const CARDS_DRAWN_AT_START: u8 = 3;

/// Cards drawn at the start of every turn.
pub const CARDS_DRAWN_EACH_TURN: u8 = 1;

/// Most cards a hand may hold during the play phase.
pub const PLAY_HAND_LIMIT: u8 = 7;

/// Which of the two players.
#[derive(Clone, Copy, Debug, PartialEq, Eq, Hash, Structural)]
pub enum PlayerNumber {
    One,
    Two,
}

impl Default for PlayerNumber {
    /// Player one opens the match.
    fn default() -> (n: PlayerNumber)
        ensures
            n == PlayerNumber::One,
    {
        PlayerNumber::One
    }
}

/// A player, named by their number.
#[derive(Clone, Copy, Debug, PartialEq, Eq, Structural)]
pub struct Player(pub PlayerNumber);

/// A player's integrity counter.
#[derive(Clone, Copy, Debug, PartialEq, Eq, Structural)]
pub struct SystemIntegrity(pub u8);

/// A player's memory-cache counter.
#[derive(Clone, Copy, Debug, PartialEq, Eq, Structural)]
pub struct MemoryCache(pub u8);

/// A playing card of the combat rules: what it costs to play.
#[derive(Clone, Copy, Debug, PartialEq, Eq, Structural)]
pub struct Card {
    pub memory_cost: u8,
}

/// A player's draw pile.
#[derive(Debug)]
pub struct Deck(pub Vec<Card>);

/// Everything a player enters the match with.
#[derive(Clone, Copy, Debug, PartialEq, Eq, Structural)]
pub struct PlayerBundle {
    pub player: Player,
    pub system_integrity: SystemIntegrity,
    pub memory_cache: MemoryCache,
}

/// The phases one turn passes through, in order.
#[derive(Clone, Copy, Debug, PartialEq, Eq, Hash, Structural)]
pub enum TurnState {
    DrawCards,
    PlayCards,
    ResolveEffects,
    ResolveSideEffects,
    EndTurn,
}

impl Default for TurnState {
    /// A turn opens with the draw phase.
    fn default() -> (s: TurnState)
        ensures
            s == TurnState::DrawCards,
    {
        TurnState::DrawCards
    }
}

/// Whose turn it is.
#[derive(Clone, Copy, Debug, PartialEq, Eq, Hash, Structural)]
pub struct CurrentPlayerState(pub PlayerNumber);

impl Default for CurrentPlayerState {
    /// Player one acts first.
    fn default() -> (s: CurrentPlayerState)
        ensures
            s == CurrentPlayerState(PlayerNumber::One),
    {
        CurrentPlayerState(PlayerNumber::One)
    }
}

/// Startup attributes of a player: named, with full integrity and a full
/// memory cache.
pub fn spawn_player(number: PlayerNumber) -> (b: PlayerBundle)
    ensures
        b.player == Player(number),
        b.system_integrity == SystemIntegrity(SYSTEM_INTEGRITY_INITIAL_VALUE),
        b.memory_cache == MemoryCache(MEMORY_CACHE_INITIAL_VALUE),
{
    PlayerBundle {
        player: Player(number),
        system_integrity: SystemIntegrity(SYSTEM_INTEGRITY_INITIAL_VALUE),
        memory_cache: MemoryCache(MEMORY_CACHE_INITIAL_VALUE),
    }
}

} // verus!
