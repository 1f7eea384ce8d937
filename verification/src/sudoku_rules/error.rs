//! Typed failures. Each variant is something a caller can act on: a screen
//! that must explain a refused tap.

use vstd::prelude::*;
use vstd::string::*;

use crate::sudoku_rules::types::{cell_name, Cell};
use crate::text::push_text;

verus! {

/// Why a digit could not be entered, or a cell cleared.
#[derive(Debug, Clone, Copy, PartialEq, Eq, Structural)]
#[non_exhaustive]
pub enum MoveError {
    /// The puzzle is already finished; nothing more can be entered.
    Solved,
    /// That cell is one of the puzzle's givens and cannot be changed.
    Given,
    /// Another cell in the same row, column or block already holds that digit.
    ///
    /// Carries which one, because "that digit is already in R3C4" is the only
    /// form of this answer a player can do anything with.
    Conflict {
        /// The cell that already holds the digit.
        with: Cell,
    },
}

impl MoveError {
    /// A cell that is named is on the grid.
    pub open spec fn wf(self) -> bool {
        self matches MoveError::Conflict { with } ==> with.wf()
    }

    /// What the message says.
    pub open spec fn message_text(self) -> Seq<char> {
        match self {
            MoveError::Solved => "the puzzle is already solved"@,
            MoveError::Given => "that cell is one of the puzzle's givens"@,
            MoveError::Conflict { with } => "that digit is already in "@ + cell_name(with@),
        }
    }

    /// The failure in words.
    pub fn message(self) -> (message: String)
        requires
            self.wf(),
        ensures
            message@ == self.message_text(),
    {
        match self {
            MoveError::Solved => "the puzzle is already solved".to_owned(),
            MoveError::Given => "that cell is one of the puzzle's givens".to_owned(),
            MoveError::Conflict { with } => {
                let mut message = "that digit is already in ".to_owned();
                push_text(&mut message, with.name().as_str());
                message
            },
        }
    }
}

} // verus!
