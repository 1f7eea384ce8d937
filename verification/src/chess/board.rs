//! Board coordinates, and where each square stands on the screen's grid.

use vstd::prelude::*;
use vstd::string::*;

use crate::chess_rules::types::{file_letter, square_name};
use crate::text::push_char;

verus! {

/// A file, `a` through `h`, stored as `0..8` from the queenside.
#[derive(Debug, Clone, Copy, PartialEq, Eq, PartialOrd, Ord, Hash, Structural)]
pub struct File(pub(crate) u8);

/// A rank, `1` through `8`, stored as `0..8` from White's back rank.
#[derive(Debug, Clone, Copy, PartialEq, Eq, PartialOrd, Ord, Hash, Structural)]
pub struct Rank(pub(crate) u8);

impl File {
    /// The `0..8` index.
    pub open(crate) spec fn view(&self) -> int {
        self.0 as int
    }

    /// Every file a caller can hold is on the board.
    pub open(crate) spec fn wf(&self) -> bool {
        self.0 < 8
    }

    /// Builds a file from `0..8`, or `None` for anything else.
    pub fn new(index: u8) -> (file: Option<Self>)
        ensures
            file is Some <==> index < 8,
            file is Some ==> file->0.wf() && file->0@ == index,
    {
        if index < 8 {
            Some(Self(index))
        } else {
            None
        }
    }

    /// The `0..8` index.
    pub fn index(self) -> (index: u8)
        requires
            self.wf(),
        ensures
            index == self@,
            index < 8,
    {
        self.0
    }

    /// The algebraic letter.
    pub fn letter(self) -> (letter: char)
        requires
            self.wf(),
        ensures
            letter == file_letter(self@),
    {
        (97 + self.0) as char
    }
}

impl Rank {
    /// The `0..8` index.
    pub open(crate) spec fn view(&self) -> int {
        self.0 as int
    }

    /// Every rank a caller can hold is on the board.
    pub open(crate) spec fn wf(&self) -> bool {
        self.0 < 8
    }

    /// Builds a rank from `0..8`, or `None` for anything else.
    pub fn new(index: u8) -> (rank: Option<Self>)
        ensures
            rank is Some <==> index < 8,
            rank is Some ==> rank->0.wf() && rank->0@ == index,
    {
        if index < 8 {
            Some(Self(index))
        } else {
            None
        }
    }

    /// The `0..8` index, counting up from White's back rank.
    pub fn index(self) -> (index: u8)
        requires
            self.wf(),
        ensures
            index == self@,
            index < 8,
    {
        self.0
    }

    /// The algebraic number, `1` through `8`.
    pub fn number(self) -> (number: u8)
        requires
            self.wf(),
        ensures
            number == self@ + 1,
            1 <= number <= 8,
    {
        self.0 + 1
    }
}

/// One of the sixty-four squares.
#[derive(Debug, Clone, Copy, PartialEq, Eq, PartialOrd, Ord, Hash, Structural)]
pub struct Square {
    /// Which file.
    pub file: File,
    /// Which rank.
    pub rank: Rank,
}

/// Where a square stands on the screen's grid, column first, from the top
/// left: with Black at the bottom both coordinates turn round.
pub open spec fn grid_place(file: int, rank: int, flipped: bool) -> (int, int) {
    if flipped {
        (7 - file, rank)
    } else {
        (file, 7 - rank)
    }
}

impl Square {
    /// The `0..64` index, `a1` first, rank by rank.
    pub open spec fn view(&self) -> int {
        self.rank@ * 8 + self.file@
    }

    /// Both coordinates are on the board.
    pub open spec fn wf(&self) -> bool {
        self.file.wf() && self.rank.wf()
    }

    /// Builds a square from `0..8` indices, or `None` if either is off the board.
    pub fn new(file: u8, rank: u8) -> (square: Option<Self>)
        ensures
            square is Some <==> file < 8 && rank < 8,
            square is Some ==> square->0.wf() && square->0.file@ == file && square->0.rank@ == rank,
    {
        match (File::new(file), Rank::new(rank)) {
            (Some(file), Some(rank)) => Some(Self { file, rank }),
            _ => None,
        }
    }

    /// Whether this is a light square. `a1` is dark, which is the check every
    /// board-drawing bug fails.
    pub fn is_light(self) -> (light: bool)
        requires
            self.wf(),
        ensures
            light == ((self.file@ + self.rank@) % 2 == 1),
    {
        (self.file.0 + self.rank.0) % 2 == 1
    }

    /// Algebraic notation, such as `e4`.
    pub fn name(self) -> (name: String)
        requires
            self.wf(),
        ensures
            name@ == square_name(self@),
    {
        let mut name = String::new();
        push_char(&mut name, self.file.letter());
        push_char(&mut name, (48 + self.rank.number()) as char);
        assert(name@ =~= square_name(self@));
        name
    }

    /// Every square, `a1` first, in file-major order.
    pub fn all() -> (squares: Vec<Square>)
        ensures
            squares@.len() == 64,
            forall|i: int|
                0 <= i < 64 ==> (#[trigger] squares@[i]).wf() && squares@[i].file@ == i / 8
                    && squares@[i].rank@ == i % 8,
    {
        let mut squares: Vec<Square> = Vec::new();
        for index in 0..64u8
            invariant
                squares@.len() == index,
                forall|i: int|
                    0 <= i < index ==> (#[trigger] squares@[i]).wf() && squares@[i].file@ == i / 8
                        && squares@[i].rank@ == i % 8,
        {
            squares.push(Square { file: File(index / 8), rank: Rank(index % 8) });
        }
        squares
    }

    /// Column and row on screen, from the top left.
    pub fn grid_position(self, flipped: bool) -> (place: (u8, u8))
        requires
            self.wf(),
        ensures
            (place.0 as int, place.1 as int) == grid_place(self.file@, self.rank@, flipped),
            place.0 < 8,
            place.1 < 8,
    {
        if flipped {
            (7 - self.file.0, self.rank.0)
        } else {
            (self.file.0, 7 - self.rank.0)
        }
    }

    /// The square at a column and row on screen, or `None` off the grid.
    pub fn at_grid_position(column: u8, row: u8, flipped: bool) -> (square: Option<Self>)
        ensures
            square is Some <==> column < 8 && row < 8,
            square is Some ==> square->0.wf() && grid_place(
                square->0.file@,
                square->0.rank@,
                flipped,
            ) == (column as int, row as int),
    {
        if column > 7 || row > 7 {
            return None;
        }
        if flipped {
            Square::new(7 - column, row)
        } else {
            Square::new(column, 7 - row)
        }
    }
}

/// Every square round-trips through its place on the screen's grid, whichever
/// way round the board is: no two squares stand in the same place.
pub proof fn law_grid_place_round_trip(square: Square, other: Square, flipped: bool)
    requires
        square.wf(),
        other.wf(),
        grid_place(square.file@, square.rank@, flipped) == grid_place(
            other.file@,
            other.rank@,
            flipped,
        ),
    ensures
        square == other,
{
}

/// Turning the board round puts every square at the place diagonally opposite.
pub proof fn law_flip_turns_the_board(square: Square)
    requires
        square.wf(),
    ensures
        grid_place(square.file@, square.rank@, true).0 == 7 - grid_place(
            square.file@,
            square.rank@,
            false,
        ).0,
        grid_place(square.file@, square.rank@, true).1 == 7 - grid_place(
            square.file@,
            square.rank@,
            false,
        ).1,
{
}

} // verus!
