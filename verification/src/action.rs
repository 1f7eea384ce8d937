//! What an application asks the platform for.

use vstd::prelude::*;

verus! {

/// What an application asks the platform for after an event.
#[derive(Debug, Clone, PartialEq, Eq)]
pub enum Action {
    /// Nothing.
    Nothing,
    /// A new frame.
    Redraw,
    /// The home screen.
    Home,
    /// Another application, by its identifier.
    Launch(String),
    /// The tablet's own software.
    ReturnToStock,
}

} // verus!
