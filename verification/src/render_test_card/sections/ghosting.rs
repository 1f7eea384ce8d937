//! Ghosting under repeated partial refresh: a patch cycled between two fills,
//! next to a control that is drawn once and never touched again.

use vstd::prelude::*;
use vstd::string::*;

use crate::text::{decimal, push_decimal};

verus! {

/// What the last press did, and what a fresh launch starts from.
#[derive(Debug, Clone, Copy, PartialEq, Eq, Structural)]
pub struct GhostingState {
    /// How often the patch was cycled.
    pub cycles: u32,
    /// Whether the patch shows its dark fill.
    pub on: bool,
}

impl GhostingState {
    /// The line that counts the cycles.
    pub fn counter_text(self) -> (text: String)
        ensures
            text@ == "CYCLES: "@ + decimal(self.cycles as nat),
    {
        let mut text = "CYCLES: ".to_owned();
        push_decimal(&mut text, self.cycles as u64);
        text
    }
}

impl Default for GhostingState {
    fn default() -> (state: Self)
        ensures
            state == (GhostingState { cycles: 0, on: false }),
    {
        Self { cycles: 0, on: false }
    }
}

/// The state after one more cycle.
pub open spec fn cycled(state: GhostingState) -> GhostingState {
    GhostingState { cycles: (state.cycles + 1) as u32, on: !state.on }
}

/// Handles a tap, and says whether it hit the button and so changed the patch
/// and its counter.
pub fn press(state: &mut GhostingState, button: bool) -> (changed: bool)
    requires
        button ==> old(state).cycles < u32::MAX,
    ensures
        changed == button,
        *final(state) == (if button {
            cycled(*old(state))
        } else {
            *old(state)
        }),
{
    if !button {
        return false;
    }
    state.cycles = state.cycles + 1;
    state.on = !state.on;
    true
}

} // verus!
