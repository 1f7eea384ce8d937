//! The home screen: a shelf of what is installed, and a short summary of what
//! the platform currently is.

pub mod app;
pub mod laws;
pub mod screen;
pub mod shelf;

pub use app::{BatteryFact, BatteryState, HomeApp};
pub use screen::{HomeScreen, PointerPhase, SystemFact};
pub use shelf::{Manifest, ShelfEntry, ShelfGlyph};
