//! What makes two positions the same.

use vstd::prelude::*;

use crate::chess_rules::board::{
    board_view, castle_bits, en_passant, piece_on, white_on, white_to_move, BoardView,
};
use crate::chess_rules::types::{Color, PieceKind};

verus! {

/// A key for detecting repeated positions: piece placement, side to move, both
/// sides' castling rights, and en passant availability, all in plain values.
#[derive(Debug)]
pub struct RepetitionKey {
    /// What stands on each square: `0` for nothing, `1..=6` for White's
    /// pieces and `7..=12` for Black's.
    squares: Vec<u8>,
    white_to_move: bool,
    white_rights: u8,
    black_rights: u8,
    en_passant: Option<u8>,
}

/// What a number in a key says stands on a square.
pub open spec fn content_of(code: u8) -> Option<(Color, PieceKind)> {
    if code == 1 {
        Some((Color::White, PieceKind::Pawn))
    } else if code == 2 {
        Some((Color::White, PieceKind::Knight))
    } else if code == 3 {
        Some((Color::White, PieceKind::Bishop))
    } else if code == 4 {
        Some((Color::White, PieceKind::Rook))
    } else if code == 5 {
        Some((Color::White, PieceKind::Queen))
    } else if code == 6 {
        Some((Color::White, PieceKind::King))
    } else if code == 7 {
        Some((Color::Black, PieceKind::Pawn))
    } else if code == 8 {
        Some((Color::Black, PieceKind::Knight))
    } else if code == 9 {
        Some((Color::Black, PieceKind::Bishop))
    } else if code == 10 {
        Some((Color::Black, PieceKind::Rook))
    } else if code == 11 {
        Some((Color::Black, PieceKind::Queen))
    } else if code == 12 {
        Some((Color::Black, PieceKind::King))
    } else {
        None
    }
}

impl RepetitionKey {
    /// The position the key is of.
    pub closed spec fn view(&self) -> BoardView {
        BoardView {
            pieces: Seq::new(64, |i: int| content_of(self.squares@[i])),
            turn: if self.white_to_move {
                Color::White
            } else {
                Color::Black
            },
            white_rights: self.white_rights,
            black_rights: self.black_rights,
            en_passant: self.en_passant,
        }
    }

    /// Sixty-four squares, each with a number that stands for something.
    pub closed spec fn wf(&self) -> bool {
        &&& self.squares@.len() == 64
        &&& forall|i: int| 0 <= i < 64 ==> #[trigger] self.squares@[i] <= 12
    }

    /// Whether two keys are of the same position.
    pub fn same(&self, other: &Self) -> (same: bool)
        requires
            self.wf(),
            other.wf(),
        ensures
            same == (self@ == other@),
    {
        if self.white_to_move != other.white_to_move || self.white_rights != other.white_rights
            || self.black_rights != other.black_rights || self.en_passant != other.en_passant {
            return false;
        }
        for index in 0..64usize
            invariant
                self.wf(),
                other.wf(),
                forall|i: int| 0 <= i < index ==> self.squares@[i] == other.squares@[i],
        {
            if self.squares[index] != other.squares[index] {
                proof {
                    let i = index as int;
                    assert(self@.pieces[i] == content_of(self.squares@[i]));
                    assert(other@.pieces[i] == content_of(other.squares@[i]));
                    assert(self.squares@[i] <= 12 && other.squares@[i] <= 12);
                    assert(self@.pieces[i] != other@.pieces[i]);
                }
                return false;
            }
        }
        assert(self@.pieces =~= other@.pieces);
        true
    }
}

impl Clone for RepetitionKey {
    fn clone(&self) -> (copy: Self)
        ensures
            copy@ == self@,
            copy.wf() == self.wf(),
    {
        let copy = Self {
            squares: self.squares.clone(),
            white_to_move: self.white_to_move,
            white_rights: self.white_rights,
            black_rights: self.black_rights,
            en_passant: self.en_passant,
        };
        assert(copy.squares@ =~= self.squares@);
        copy
    }
}

/// The key of a board.
pub(crate) fn repetition_key(board: &chess::Board) -> (key: RepetitionKey)
    requires
        board_view(*board).wf(),
    ensures
        key.wf(),
        key@ == board_view(*board),
{
    let ghost view = board_view(*board);
    let mut squares: Vec<u8> = Vec::new();
    for index in 0..64u8
        invariant
            view == board_view(*board),
            squares@.len() == index,
            forall|i: int|
                0 <= i < index ==> #[trigger] squares@[i] <= 12 && content_of(squares@[i])
                    == view.pieces[i],
    {
        let code: u8 = match (piece_on(board, index), white_on(board, index)) {
            (Some(kind), Some(true)) => 1 + kind,
            (Some(kind), Some(false)) => 7 + kind,
            _ => 0,
        };
        squares.push(code);
    }
    let key = RepetitionKey {
        squares,
        white_to_move: white_to_move(board),
        white_rights: castle_bits(board, true),
        black_rights: castle_bits(board, false),
        en_passant: en_passant(board),
    };
    assert(key@.pieces =~= view.pieces);
    key
}

} // verus!
