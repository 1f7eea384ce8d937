//! The Chess screen: board coordinates, pieces, and what a tap does.

pub mod app;
pub mod board;
pub mod laws;
pub mod pieces;
pub mod screen;
pub mod shapes;

pub use app::ChessApp;
pub use board::{File, Rank, Square};
pub use pieces::{Piece, Placement, Side};
pub use screen::{ChessHits, ChessScreen};
