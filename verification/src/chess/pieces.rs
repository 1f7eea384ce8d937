//! The pieces a screen draws.

use vstd::prelude::*;

use crate::chess_rules::types::{Color, PieceKind};

verus! {

/// Which piece.
#[derive(Debug, Clone, Copy, PartialEq, Eq, PartialOrd, Ord, Hash, Structural)]
pub enum Piece {
    /// Pawn.
    Pawn,
    /// Knight.
    Knight,
    /// Bishop.
    Bishop,
    /// Rook.
    Rook,
    /// Queen.
    Queen,
    /// King.
    King,
}

/// Which player's piece.
#[derive(Debug, Clone, Copy, PartialEq, Eq, PartialOrd, Ord, Hash, Structural)]
pub enum Side {
    /// The light pieces.
    White,
    /// The dark pieces.
    Black,
}

/// A piece belonging to a side.
#[derive(Debug, Clone, Copy, PartialEq, Eq, PartialOrd, Ord, Hash, Structural)]
pub struct Placement {
    /// Which piece.
    pub piece: Piece,
    /// Whose it is.
    pub side: Side,
}

impl Placement {
    /// Builds a placement.
    pub fn new(side: Side, piece: Piece) -> (placement: Self)
        ensures
            placement == (Placement { piece, side }),
    {
        Self { piece, side }
    }
}

/// The side that a colour of the rules is drawn as.
pub open spec fn side_of(color: Color) -> Side {
    match color {
        Color::White => Side::White,
        Color::Black => Side::Black,
    }
}

/// The piece that a kind of the rules is drawn as.
pub open spec fn piece_of(kind: PieceKind) -> Piece {
    match kind {
        PieceKind::Pawn => Piece::Pawn,
        PieceKind::Knight => Piece::Knight,
        PieceKind::Bishop => Piece::Bishop,
        PieceKind::Rook => Piece::Rook,
        PieceKind::Queen => Piece::Queen,
        PieceKind::King => Piece::King,
    }
}

/// The side that a colour of the rules is drawn as.
pub fn to_side(color: Color) -> (side: Side)
    ensures
        side == side_of(color),
{
    match color {
        Color::White => Side::White,
        Color::Black => Side::Black,
    }
}

/// The piece that a kind of the rules is drawn as.
pub fn to_piece(kind: PieceKind) -> (piece: Piece)
    ensures
        piece == piece_of(kind),
{
    match kind {
        PieceKind::Pawn => Piece::Pawn,
        PieceKind::Knight => Piece::Knight,
        PieceKind::Bishop => Piece::Bishop,
        PieceKind::Rook => Piece::Rook,
        PieceKind::Queen => Piece::Queen,
        PieceKind::King => Piece::King,
    }
}

} // verus!
