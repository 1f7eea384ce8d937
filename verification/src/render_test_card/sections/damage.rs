//! A grid that claims damage one cell at a time: a tap toggles exactly the
//! cell it landed on, and nothing else.

use vstd::prelude::*;

verus! {

/// How many cells stand side by side.
pub const COLUMNS: usize = 5;

/// How many rows there are.
pub const ROWS: usize = 4;

/// How many cells there are.
pub const CELL_COUNT: usize = 20;

/// Which cells are filled. Starts empty.
#[derive(Debug, Clone, Copy, PartialEq, Eq)]
pub struct DamageGridState {
    /// Whether each cell, row by row, is filled.
    pub filled: [bool; 20],
}

impl DamageGridState {
    /// Whether each cell is filled.
    pub open spec fn view(&self) -> Seq<bool> {
        self.filled@
    }
}

impl Default for DamageGridState {
    fn default() -> (state: Self)
        ensures
            state@ == Seq::new(20, |i: int| false),
    {
        let state = Self { filled: [false; 20] };
        assert(state@ =~= Seq::new(20, |i: int| false));
        state
    }
}

/// The cell in a column and row, or `None` past the last.
pub fn cell_index(column: usize, row: usize) -> (index: Option<usize>)
    ensures
        index is Some <==> row * COLUMNS + column < CELL_COUNT,
        index is Some ==> index->0 == row * COLUMNS + column,
{
    if row >= ROWS || column >= CELL_COUNT {
        return None;
    }
    let index: usize = row * COLUMNS + column;
    if index < CELL_COUNT {
        Some(index)
    } else {
        None
    }
}

/// The column and row of a cell.
pub fn cell_place(index: usize) -> (place: (usize, usize))
    ensures
        place.0 < COLUMNS,
        index == place.1 * COLUMNS + place.0,
{
    (index % COLUMNS, index / COLUMNS)
}

/// Handles a tap that hit the cell `hit`, and hands back the one cell that
/// changed, if any.
pub fn press(state: &mut DamageGridState, hit: Option<usize>) -> (changed: Option<usize>)
    requires
        hit is Some ==> hit->0 < CELL_COUNT,
    ensures
        changed == hit,
        hit is None ==> *final(state) == *old(state),
        hit is Some ==> final(state)@ == old(state)@.update(
            hit->0 as int,
            !old(state)@[hit->0 as int],
        ),
{
    match hit {
        Some(index) => {
            let filled = state.filled[index];
            state.filled[index] = !filled;
            Some(index)
        },
        None => None,
    }
}

} // verus!
