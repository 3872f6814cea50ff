use vstd::prelude::*;

pub mod card;
pub mod game;
pub mod engine;
pub mod state;
pub mod coordinator;
pub mod laws;

pub use card::{create_starter_deck, Card, CardType};
pub use game::{GameError, GamePhase, GameState, Message, Operation, PlayerInGame};
pub use state::{BlitzTacticsState, PlayerStats};

verus! {

} // verus!
