//! Chess legality, game state and the history a save file keeps.
//!
//! Legality, check, checkmate and stalemate come from the `chess` crate. What
//! is a draw-classification question rather than a legality one (insufficient
//! material, repetition, the fifty-move rule) is decided here.

pub mod board;
pub mod error;
pub mod game;
pub mod laws;
pub mod repetition;
pub mod types;

pub use error::{ClaimError, MoveError};
pub use game::{ClaimableDraw, Game, GameEvent, MoveRecord, Outcome};
pub use types::{Color, File, Move, PieceKind, Rank, Square};
