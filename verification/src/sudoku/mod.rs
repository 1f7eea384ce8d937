//! The Sudoku screen: the digit pad, what a tap does, and what it changes on
//! the glass.

pub mod app;
pub mod laws;
pub mod layout;
pub mod screen;

pub use app::SudokuApp;
pub use layout::PadKey;
pub use screen::{Notice, Press, Region, SudokuHits, SudokuScreen};
