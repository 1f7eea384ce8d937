//! The rules of Sudoku: grids, solving, generating, playing and saving.
//!
//! What needs care is generation: a puzzle whose solution is not unique is a
//! broken puzzle, and the only way to know is to count the solutions.
//! Generation is deterministic in its seed, which is what lets a save file
//! carry on where it left off.

pub mod error;
pub mod game;
pub mod generate;
pub mod grid;
pub mod laws;
pub mod mask;
pub mod model;
pub mod opening;
pub mod rng;
pub mod save;
pub mod solve;
pub mod types;

pub use error::MoveError;
pub use game::Game;
pub use generate::{Difficulty, Puzzle};
pub use grid::Grid;
pub use rng::Rng;
pub use save::{rebuild, saved_puzzle, SavedPuzzle};
pub use solve::{is_unique, solutions, solve};
pub use types::{Cell, Digit};
