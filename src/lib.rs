//! A tic-tac-toe match as a verified state machine: create, join, move and
//! keep-alive, each a transition from one well-formed match to another.

pub mod error;
pub mod game;
pub mod identity;
pub mod laws;
pub mod model;

pub use error::ProgramError;
pub use game::Game;
pub use identity::Identity;
pub use model::{Cell, GameState, MatchModel};
