use vstd::prelude::*;
use crate::card::Card;

verus! {

/// Lifecycle of a match.
#[derive(Clone, Copy, Debug, PartialEq, Eq, Structural)]
pub enum GamePhase {
    WaitingForPlayers,
    InProgress,
    Finished,
}

/// Why an action or a store operation was turned down.
#[derive(Clone, Copy, Debug, PartialEq, Eq, Structural)]
pub enum GameError {
    NotFound,
    AlreadyExists,
    InvalidTurn,
    InsufficientMana,
    PlayerAlreadyInMatch,
    MatchFinished,
    CounterOverflow,
}

/// One side of a match.
#[derive(Clone, Debug)]
pub struct PlayerInGame {
    pub owner: u64,
    pub health: i64,
    pub mana: u32,
    pub hand: Vec<Card>,
    pub deck: Vec<u32>,
    pub field: Vec<Card>,
    pub graveyard: Vec<u32>,
}

/// A match between two sides; odd turns belong to `player1`, even turns to `player2`.
/// `winner` is 1 or 2 once the match is finished.
#[derive(Clone, Debug)]
pub struct GameState {
    pub match_id: u64,
    pub player1: PlayerInGame,
    pub player2: PlayerInGame,
    pub current_turn: u64,
    pub turn_timer: u64,
    pub game_phase: GamePhase,
    pub winner: Option<u8>,
}

/// What a player asks for.
#[derive(Clone, Copy, Debug, PartialEq, Eq, Structural)]
pub enum Operation {
    CreatePlayerProfile,
    CreateMatch { opponent: u64 },
    PlayCard { card_id: u32 },
    InstantCounter { card_id: u32, target_card: u32 },
    EndTurn,
    AttackPlayer { attacker_id: u32 },
    AttackCreature { attacker_id: u32, defender_id: u32 },
    RequestAIMove,
}

/// A notification sent to the participants of a match.
#[derive(Clone, Debug)]
pub enum Message {
    MatchCreated { match_id: u64, player1: u64, player2: u64 },
    CardPlayed { player: u64, card: Card },
    TurnEnded { next_player: u64 },
    GameFinished { winner: Option<u64>, rewards: u128 },
    CounterActivated { player: u64, counter_card: Card, target_card: u32 },
}

/// The phase after an accepted action: a waiting match starts.
pub open spec fn started(p: GamePhase) -> GamePhase {
    if p == GamePhase::WaitingForPlayers {
        GamePhase::InProgress
    } else {
        p
    }
}

/// `s` without any card that carries `id`, order kept.
pub open spec fn without_id(s: Seq<Card>, id: u32) -> Seq<Card>
    decreases s.len(),
{
    if s.len() == 0 {
        s
    } else if s.last().id == id {
        without_id(s.drop_last(), id)
    } else {
        without_id(s.drop_last(), id).push(s.last())
    }
}

/// Number of cards of `s` that carry `id`.
pub open spec fn count_id(s: Seq<Card>, id: u32) -> nat
    decreases s.len(),
{
    if s.len() == 0 {
        0
    } else {
        count_id(s.drop_last(), id) + if s.last().id == id {
            1nat
        } else {
            0nat
        }
    }
}

impl PlayerInGame {
    /// The two sides agree on everything but the field.
    pub open spec fn same_but_field(&self, o: PlayerInGame) -> bool {
        &&& self.owner == o.owner
        &&& self.health == o.health
        &&& self.mana == o.mana
        &&& self.hand == o.hand
        &&& self.deck == o.deck
        &&& self.graveyard == o.graveyard
    }
}

impl GameState {
    /// The invariant of a match: turns start at 1, and the match is finished exactly when
    /// some side is out of health, with the other side as winner.
    pub open spec fn wf(&self) -> bool {
        &&& self.current_turn >= 1
        &&& (self.game_phase == GamePhase::Finished) <==> (self.player1.health <= 0
            || self.player2.health <= 0)
        &&& self.game_phase == GamePhase::Finished ==> ((self.winner == Some(1u8)
            && self.player2.health <= 0) || (self.winner == Some(2u8) && self.player1.health
            <= 0))
        &&& self.game_phase != GamePhase::Finished ==> self.winner is None
    }

    pub open spec fn is_participant(&self, owner: u64) -> bool {
        self.player1.owner == owner || self.player2.owner == owner
    }

    /// The side that `owner` plays; `player1` where both sides have that owner.
    pub open spec fn acting(&self, owner: u64) -> PlayerInGame {
        if self.player1.owner == owner {
            self.player1
        } else {
            self.player2
        }
    }

    /// The side that `owner` plays against.
    pub open spec fn opposing(&self, owner: u64) -> PlayerInGame {
        if self.player1.owner == owner {
            self.player2
        } else {
            self.player1
        }
    }

    /// Turn parity: odd turns belong to `player1`, even turns to `player2`.
    pub open spec fn is_turn_of(&self, owner: u64) -> bool {
        if self.player1.owner == owner {
            self.current_turn % 2 == 1
        } else {
            self.player2.owner == owner && self.current_turn % 2 == 0
        }
    }

    /// The owner whose turn it is.
    pub open spec fn turn_owner(&self) -> u64 {
        if self.current_turn % 2 == 1 {
            self.player1.owner
        } else {
            self.player2.owner
        }
    }

    /// `post` keeps the id, both owners, the turn and the timer of `self`.
    pub open spec fn keeps_frame(&self, post: GameState) -> bool {
        &&& post.match_id == self.match_id
        &&& post.player1.owner == self.player1.owner
        &&& post.player2.owner == self.player2.owner
        &&& post.current_turn == self.current_turn
        &&& post.turn_timer == self.turn_timer
    }
}

} // verus!
