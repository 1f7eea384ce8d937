//! Board vocabulary shared by every other module here.
//!
//! Nothing in this file names a type of the `chess` crate: application code
//! never needs to import it to use this one.

use vstd::prelude::*;
use vstd::string::*;

use crate::text::push_char;

verus! {

/// Which side.
#[derive(Debug, Clone, Copy, PartialEq, Eq, Hash, Structural)]
pub enum Color {
    /// Moves first.
    White,
    /// Moves second.
    Black,
}

impl Color {
    /// The other side.
    pub open spec fn other(self) -> Color {
        match self {
            Color::White => Color::Black,
            Color::Black => Color::White,
        }
    }

    /// The side that did not just move.
    pub fn opponent(self) -> (other: Self)
        ensures
            other == self.other(),
    {
        match self {
            Color::White => Color::Black,
            Color::Black => Color::White,
        }
    }
}

/// Which kind of piece, independent of colour.
#[derive(Debug, Clone, Copy, PartialEq, Eq, Hash, Structural)]
pub enum PieceKind {
    /// Pawn.
    Pawn,
    /// Knight.
    Knight,
    /// Bishop.
    Bishop,
    /// Rook.
    Rook,
    /// Queen.
    Queen,
    /// King.
    King,
}

/// A file, `a` through `h`, stored as `0..8` from the queenside.
#[derive(Debug, Clone, Copy, PartialEq, Eq, PartialOrd, Ord, Hash, Structural)]
pub struct File(pub(crate) u8);

/// A rank, `1` through `8`, stored as `0..8` from White's back rank.
#[derive(Debug, Clone, Copy, PartialEq, Eq, PartialOrd, Ord, Hash, Structural)]
pub struct Rank(pub(crate) u8);

impl File {
    /// The `0..8` index.
    pub open(crate) spec fn view(&self) -> int {
        self.0 as int
    }

    /// Every file a caller can hold is on the board.
    pub open(crate) spec fn wf(&self) -> bool {
        self.0 < 8
    }

    /// Builds a file from `0..8`, or `None` for anything else.
    pub fn new(index: u8) -> (file: Option<Self>)
        ensures
            file is Some <==> index < 8,
            file is Some ==> file->0.wf() && file->0@ == index,
    {
        if index < 8 {
            Some(Self(index))
        } else {
            None
        }
    }

    /// The `0..8` index.
    pub fn index(self) -> (index: u8)
        requires
            self.wf(),
        ensures
            index == self@,
            index < 8,
    {
        self.0
    }

    /// The algebraic letter.
    pub fn letter(self) -> (letter: char)
        requires
            self.wf(),
        ensures
            letter == file_letter(self@),
    {
        (97 + self.0) as char
    }

    /// The file an algebraic letter names.
    pub fn from_letter(letter: char) -> (file: Option<Self>)
        ensures
            file is Some <==> 'a' <= letter && letter <= 'h',
            file is Some ==> file->0.wf() && file_letter(file->0@) == letter,
    {
        if 'a' <= letter && letter <= 'z' {
            Self::new((letter as u8) - 97)
        } else {
            None
        }
    }
}

impl Rank {
    /// The `0..8` index.
    pub open(crate) spec fn view(&self) -> int {
        self.0 as int
    }

    /// Every rank a caller can hold is on the board.
    pub open(crate) spec fn wf(&self) -> bool {
        self.0 < 8
    }

    /// Builds a rank from `0..8`, or `None` for anything else.
    pub fn new(index: u8) -> (rank: Option<Self>)
        ensures
            rank is Some <==> index < 8,
            rank is Some ==> rank->0.wf() && rank->0@ == index,
    {
        if index < 8 {
            Some(Self(index))
        } else {
            None
        }
    }

    /// The `0..8` index, counting up from White's back rank.
    pub fn index(self) -> (index: u8)
        requires
            self.wf(),
        ensures
            index == self@,
            index < 8,
    {
        self.0
    }

    /// The algebraic number, `1` through `8`.
    pub fn number(self) -> (number: u8)
        requires
            self.wf(),
        ensures
            number == self@ + 1,
            1 <= number <= 8,
    {
        self.0 + 1
    }

    /// The rank an algebraic number names.
    pub fn from_number(digit: char) -> (rank: Option<Self>)
        ensures
            rank is Some <==> '1' <= digit && digit <= '8',
            rank is Some ==> rank->0.wf() && rank_digit(rank->0@) == digit,
    {
        if '1' <= digit && digit <= '8' {
            Self::new((digit as u8) - 49)
        } else {
            None
        }
    }
}

/// The algebraic letter of a file.
pub open spec fn file_letter(file: int) -> char {
    (97 + file) as u8 as char
}

/// The algebraic number of a rank, as a character.
pub open spec fn rank_digit(rank: int) -> char {
    (49 + rank) as u8 as char
}

/// The algebraic name of the square at `index`.
pub open spec fn square_name(index: int) -> Seq<char> {
    seq![file_letter(index % 8), rank_digit(index / 8)]
}

/// Whether `text` is a square's name.
pub open spec fn is_square_name(text: Seq<char>) -> bool {
    &&& text.len() == 2
    &&& 'a' <= text[0] && text[0] <= 'h'
    &&& '1' <= text[1] && text[1] <= '8'
}

/// One of the sixty-four squares.
#[derive(Debug, Clone, Copy, PartialEq, Eq, PartialOrd, Ord, Hash, Structural)]
pub struct Square {
    /// Which file.
    pub file: File,
    /// Which rank.
    pub rank: Rank,
}

impl Square {
    /// The `0..64` index, `a1` first, rank by rank.
    pub open spec fn view(&self) -> int {
        self.rank@ * 8 + self.file@
    }

    /// Both coordinates are on the board.
    pub open spec fn wf(&self) -> bool {
        self.file.wf() && self.rank.wf()
    }

    /// Builds a square from `0..8` indices, or `None` if either is off the board.
    pub fn new(file: u8, rank: u8) -> (square: Option<Self>)
        ensures
            square is Some <==> file < 8 && rank < 8,
            square is Some ==> square->0.wf() && square->0.file@ == file && square->0.rank@ == rank,
    {
        match (File::new(file), Rank::new(rank)) {
            (Some(file), Some(rank)) => Some(Self { file, rank }),
            _ => None,
        }
    }

    /// Algebraic notation, such as `e4`.
    pub fn name(self) -> (name: String)
        requires
            self.wf(),
        ensures
            name@ == square_name(self@),
    {
        let mut name = String::new();
        push_char(&mut name, self.file.letter());
        push_char(&mut name, (48 + self.rank.number()) as char);
        assert(name@ =~= square_name(self@));
        name
    }

    /// Parses algebraic notation, such as `e4`. `None` for anything else,
    /// including the wrong case, wrong length, or an out-of-range file/rank.
    pub fn parse(text: &str) -> (square: Option<Self>)
        ensures
            square is Some <==> is_square_name(text@),
            square is Some ==> square->0.wf() && square_name(square->0@) == text@,
    {
        if text.unicode_len() != 2 {
            return None;
        }
        match (File::from_letter(text.get_char(0)), Rank::from_number(text.get_char(1))) {
            (Some(file), Some(rank)) => {
                let square = Self { file, rank };
                assert(square_name(square@) =~= text@);
                Some(square)
            },
            _ => None,
        }
    }

    /// The `0..64` index.
    pub(crate) fn index(self) -> (index: u8)
        requires
            self.wf(),
        ensures
            index == self@,
            index < 64,
    {
        self.rank.0 * 8 + self.file.0
    }

    /// The square at a `0..64` index.
    pub(crate) fn at(index: u8) -> (square: Self)
        requires
            index < 64,
        ensures
            square.wf(),
            square@ == index,
    {
        Self { file: File(index % 8), rank: Rank(index / 8) }
    }

    /// Every square, `a1` first, in file-major order.
    pub fn all() -> (squares: Vec<Square>)
        ensures
            squares@.len() == 64,
            forall|i: int|
                0 <= i < 64 ==> (#[trigger] squares@[i]).wf() && squares@[i].file@ == i / 8
                    && squares@[i].rank@ == i % 8,
    {
        let mut squares: Vec<Square> = Vec::new();
        for index in 0..64u8
            invariant
                squares@.len() == index,
                forall|i: int|
                    0 <= i < index ==> (#[trigger] squares@[i]).wf() && squares@[i].file@ == i / 8
                        && squares@[i].rank@ == i % 8,
        {
            squares.push(Square { file: File(index / 8), rank: Rank(index % 8) });
        }
        squares
    }
}

/// Two squares at the same index are the same square.
pub proof fn law_index_names_the_square(a: Square, b: Square)
    requires
        a.wf(),
        b.wf(),
        a@ == b@,
    ensures
        a == b,
{
}

/// Squares round-trip through algebraic notation: a square's name parses, and
/// no other square has it.
pub proof fn law_square_name_round_trip(square: Square, parsed: Square)
    requires
        square.wf(),
        parsed.wf(),
    ensures
        is_square_name(square_name(square@)),
        square_name(parsed@) == square_name(square@) ==> parsed == square,
{
    let (a, b) = (square_name(square@), square_name(parsed@));
    if a == b {
        assert(a[0] == b[0] && a[1] == b[1]);
        assert(square@ % 8 == parsed@ % 8);
        assert(square@ / 8 == parsed@ / 8);
    }
}

/// A move as a player states it: where a piece is picked up, where it is put
/// down, and, only when a pawn reaches the back rank, what it becomes.
#[derive(Debug, Clone, Copy, PartialEq, Eq, Hash, Structural)]
pub struct Move {
    /// Where the piece starts.
    pub from: Square,
    /// Where the piece ends up.
    pub to: Square,
    /// What a pawn reaching the back rank becomes. `None` for every other
    /// move.
    pub promotion: Option<PieceKind>,
}

impl Move {
    /// Both squares are on the board.
    pub open spec fn wf(&self) -> bool {
        self.from.wf() && self.to.wf()
    }

    /// A move with no promotion, which is every move except a pawn reaching
    /// the back rank.
    pub fn new(from: Square, to: Square) -> (mv: Self)
        ensures
            mv == (Move { from, to, promotion: None }),
    {
        Self { from, to, promotion: None }
    }

    /// A pawn promoting on arrival.
    pub fn promoting(from: Square, to: Square, promotion: PieceKind) -> (mv: Self)
        ensures
            mv == (Move { from, to, promotion: Some(promotion) }),
    {
        Self { from, to, promotion: Some(promotion) }
    }
}

} // verus!
