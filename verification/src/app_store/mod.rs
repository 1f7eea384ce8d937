//! The App Store: what is installed, what the catalog offers, and what a press
//! does about it.
//!
//! Installing and updating are explicit; nothing here installs or launches
//! anything on its own. A press never performs work: it yields a request, and
//! the answer is folded in when it comes back.

pub mod app;
pub mod inventory;
pub mod laws;
pub mod render;
pub mod screen;
pub mod source;
pub mod wrap;

pub use app::AppStoreApp;
pub use inventory::{AppEntry, AppState, CatalogStatus, Health, Inventory};
pub use screen::{AppStoreScreen, Failure, Outcome, Request, View, Working};
pub use source::SourceError;
