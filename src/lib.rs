//! Authoritative rules of a two-player board game: the replicated game
//! state, the event validator, the state transition, the win evaluator and
//! the decisions of the server session and of a client replica.
pub mod units;
pub mod buildings;
pub mod terrain;
pub mod game;
pub mod rules;
pub mod transition;
pub mod winner;
pub mod laws;
pub mod session;
pub mod handshake;

pub use game::{
    BoardTile, Descriptors, EndGameReason, Faction, GameEvent, GameState, Player, PlayerId, Stage,
    MAP_HEIGHT, MAP_SIZE, MAP_WIDTH, PROTOCOL_ID,
};
