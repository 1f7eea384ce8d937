//! Typed failures. Every variant names what a caller can do about it: ask for
//! a promotion piece, refuse a tap, or not trust a save file.

use vstd::prelude::*;
use vstd::string::*;

verus! {

/// Why a proposed move was refused.
#[derive(Debug, Clone, Copy, PartialEq, Eq, Structural)]
#[non_exhaustive]
pub enum MoveError {
    /// The game already has an outcome; no move is legal in a finished game.
    GameOver,
    /// There is no piece on the `from` square.
    EmptySquare,
    /// The piece on `from` belongs to the side who is not moving.
    WrongColor,
    /// No legal move goes from `from` to `to`, with any promotion choice.
    Illegal,
    /// A pawn reaching the back rank was moved without saying what it becomes.
    PromotionRequired,
    /// A promotion piece was given for a move that is not a promotion.
    PromotionNotAllowed,
}

impl MoveError {
    /// What the message says.
    pub open spec fn message_text(self) -> Seq<char> {
        match self {
            MoveError::GameOver => "the game is over"@,
            MoveError::EmptySquare => "there is no piece on that square"@,
            MoveError::WrongColor => "that piece belongs to the side not to move"@,
            MoveError::Illegal => "that is not a legal move"@,
            MoveError::PromotionRequired => "a promotion piece is required"@,
            MoveError::PromotionNotAllowed => "that move does not promote a pawn"@,
        }
    }

    /// The failure in words.
    pub fn message(self) -> (message: String)
        ensures
            message@ == self.message_text(),
    {
        match self {
            MoveError::GameOver => "the game is over".to_owned(),
            MoveError::EmptySquare => "there is no piece on that square".to_owned(),
            MoveError::WrongColor => "that piece belongs to the side not to move".to_owned(),
            MoveError::Illegal => "that is not a legal move".to_owned(),
            MoveError::PromotionRequired => "a promotion piece is required".to_owned(),
            MoveError::PromotionNotAllowed => "that move does not promote a pawn".to_owned(),
        }
    }
}

/// Why a draw could not be claimed.
#[derive(Debug, Clone, Copy, PartialEq, Eq, Structural)]
#[non_exhaustive]
pub enum ClaimError {
    /// The game already has an outcome.
    GameOver,
    /// Neither threefold repetition nor the fifty-move rule is available.
    NothingToClaim,
}

impl ClaimError {
    /// What the message says.
    pub open spec fn message_text(self) -> Seq<char> {
        match self {
            ClaimError::GameOver => "the game is over"@,
            ClaimError::NothingToClaim => "no claimable draw is available"@,
        }
    }

    /// The failure in words.
    pub fn message(self) -> (message: String)
        ensures
            message@ == self.message_text(),
    {
        match self {
            ClaimError::GameOver => "the game is over".to_owned(),
            ClaimError::NothingToClaim => "no claimable draw is available".to_owned(),
        }
    }
}

} // verus!
