//! The 9x9 grid: storage, legality, and its one-line text form.

use vstd::prelude::*;
use vstd::string::*;

use crate::sudoku_rules::mask::{
    lemma_tally_empty, lemma_tally_fits, lemma_tally_place, tally, Unit,
};
use crate::sudoku_rules::model::{
    are_peers, full, empty_board, filled, filled_before, fits, is_board, legal, lemma_place_legal,
    lemma_units, solved,
};
use crate::sudoku_rules::types::{Cell, Digit};
use crate::text::push_char;

verus! {

/// A 9x9 grid of optional digits.
///
/// Both a puzzle's givens and a board being played are this type. A grid has
/// no notion of a cell being locked, so no code path can accidentally decide
/// one is.
#[derive(Debug, Clone, Copy, PartialEq, Eq)]
pub struct Grid {
    /// The digit in each cell, `0` for empty.
    pub(crate) cells: [u8; 81],
}

/// A cell's content as a number, `0` for empty.
pub open spec fn cell_value(content: Option<Digit>) -> int {
    match content {
        None => 0,
        Some(digit) => digit@,
    }
}

/// The first `n` cells of `s`, the rest empty.
pub open spec fn prefix(s: Seq<int>, n: int) -> Seq<int> {
    Seq::new(81, |i: int| if i < n { s[i] } else { 0 })
}

/// What a character of a grid's text form stands for.
pub open spec fn char_value(c: char) -> Option<int> {
    if c == '.' {
        Some(0)
    } else if '0' <= c && c <= '9' {
        Some(c as int - 48)
    } else {
        None
    }
}

/// Eighty-one characters, each a digit or an empty cell.
pub open spec fn is_line(text: Seq<char>) -> bool {
    &&& text.len() == 81
    &&& forall|i: int| 0 <= i < 81 ==> char_value(#[trigger] text[i]) is Some
}

/// The board a line of text writes out.
pub open spec fn board_of_line(text: Seq<char>) -> Seq<int> {
    Seq::new(81, |i: int| char_value(text[i])->0)
}

/// How a cell is written in a line.
pub open spec fn value_char(v: int) -> char {
    if v == 0 {
        '.'
    } else {
        (48 + v) as u8 as char
    }
}

/// A board in reading order, `.` for an empty cell.
pub open spec fn line_of(s: Seq<int>) -> Seq<char> {
    Seq::new(81, |i: int| value_char(s[i]))
}

impl Grid {
    /// The grid as eighty-one numbers, `0` for an empty cell.
    pub open(crate) spec fn view(&self) -> Seq<int> {
        Seq::new(81, |i: int| self.cells@[i] as int)
    }

    /// Every digit the grid holds is one through nine.
    pub open(crate) spec fn wf(&self) -> bool {
        forall|i: int| 0 <= i < 81 ==> #[trigger] self.cells@[i] <= 9
    }

    /// Eighty-one empty cells.
    pub fn empty() -> (grid: Self)
        ensures
            grid.wf(),
            grid@ == empty_board(),
    {
        let grid = Self { cells: [0; 81] };
        assert(grid@ =~= empty_board());
        grid
    }

    /// What is in `cell`.
    pub fn get(&self, cell: Cell) -> (content: Option<Digit>)
        requires
            self.wf(),
            cell.wf(),
        ensures
            cell_value(content) == self@[cell@],
            content is Some <==> self@[cell@] != 0,
            content is Some ==> content->0.wf(),
    {
        let index: usize = cell.index();
        Digit::new(self.cells[index])
    }

    /// Puts `digit` in `cell`, or empties it.
    ///
    /// Unchecked on purpose: this is the storage primitive, and legality is
    /// the game's to enforce.
    pub fn set(&mut self, cell: Cell, digit: Option<Digit>)
        requires
            old(self).wf(),
            cell.wf(),
            digit is Some ==> digit->0.wf(),
        ensures
            final(self).wf(),
            final(self)@ == old(self)@.update(cell@, cell_value(digit)),
    {
        let index: usize = cell.index();
        self.cells[index] = match digit {
            Some(digit) => digit.value(),
            None => 0,
        };
        assert(self@ =~= old(self)@.update(cell@, cell_value(digit)));
    }

    /// How many cells hold a digit.
    pub fn filled(&self) -> (count: usize)
        requires
            self.wf(),
        ensures
            count == filled(self@),
            count <= 81,
    {
        let mut count: usize = 0;
        for index in 0..81usize
            invariant
                self.wf(),
                count == filled_before(self@, index as int),
                count <= index,
        {
            assert(self@[index as int] == self.cells@[index as int]);
            if self.cells[index] != 0 {
                count = count + 1;
            }
        }
        count
    }

    /// Whether every cell holds a digit. Says nothing about legality.
    pub fn is_complete(&self) -> (done: bool)
        requires
            self.wf(),
        ensures
            done == full(self@),
    {
        for index in 0..81usize
            invariant
                self.wf(),
                forall|i: int| 0 <= i < index ==> #[trigger] self@[i] != 0,
        {
            assert(self@[index as int] == self.cells@[index as int]);
            if self.cells[index] == 0 {
                return false;
            }
        }
        true
    }

    /// The first cell sharing a row, column or block with `cell` that already
    /// holds `digit`, or `None` if `digit` is placeable there.
    ///
    /// Returns the cell, not a bool: "R3C4 already has a 7" is the only
    /// version of this answer a person can act on.
    pub fn conflict(&self, cell: Cell, digit: Digit) -> (with: Option<Cell>)
        requires
            self.wf(),
            cell.wf(),
            digit.wf(),
        ensures
            with is None <==> fits(self@, cell@, digit@),
            with is Some ==> {
                let first = with->0;
                &&& first.wf()
                &&& are_peers(cell@, first@)
                &&& self@[first@] == digit@
                &&& forall|j: int|
                    0 <= j < first@ && #[trigger] are_peers(cell@, j) ==> self@[j] != digit@
            },
    {
        for index in 0..81usize
            invariant
                self.wf(),
                cell.wf(),
                digit.wf(),
                forall|j: int|
                    0 <= j < index && #[trigger] are_peers(cell@, j) ==> self@[j] != digit@,
        {
            let other = Cell::at(index);
            if cell.is_peer(other) {
                if let Some(held) = self.get(other) {
                    if held == digit {
                        return Some(other);
                    }
                }
            }
        }
        None
    }

    /// Whether `digit` can go in `cell` without breaking a constraint.
    pub fn accepts(&self, cell: Cell, digit: Digit) -> (free: bool)
        requires
            self.wf(),
            cell.wf(),
            digit.wf(),
        ensures
            free == fits(self@, cell@, digit@),
    {
        self.conflict(cell, digit).is_none()
    }

    /// Whether no row, column or block holds a digit twice.
    ///
    /// True of an empty grid and of any legal position part-way through: this
    /// is the constraint, not completion.
    pub fn is_valid(&self) -> (valid: bool)
        requires
            self.wf(),
        ensures
            valid == legal(self@),
    {
        let mut rows: [u16; 9] = [0; 9];
        let mut columns: [u16; 9] = [0; 9];
        let mut blocks: [u16; 9] = [0; 9];
        proof {
            let none = prefix(self@, 0);
            lemma_tally_empty(rows@, none, Unit::Row);
            lemma_tally_empty(columns@, none, Unit::Column);
            lemma_tally_empty(blocks@, none, Unit::Block);
        }
        for index in 0..81usize
            invariant
                self.wf(),
                tally(rows@, prefix(self@, index as int), Unit::Row),
                tally(columns@, prefix(self@, index as int), Unit::Column),
                tally(blocks@, prefix(self@, index as int), Unit::Block),
                legal(prefix(self@, index as int)),
        {
            let cell = Cell::at(index);
            let ghost i = index as int;
            let ghost before = prefix(self@, i);
            if let Some(digit) = self.get(cell) {
                let mask: u16 = digit.mask();
                let r: usize = cell.row() as usize;
                let c: usize = cell.column() as usize;
                let b: usize = cell.block() as usize;
                proof {
                    lemma_units(i);
                    lemma_tally_fits(rows@, columns@, blocks@, before, i, digit@);
                    lemma_place_legal(before, i, digit@);
                    assert(prefix(self@, i + 1) =~= before.update(i, digit@));
                }
                if rows[r] & mask != 0 || columns[c] & mask != 0 || blocks[b] & mask != 0 {
                    proof {
                        if legal(self@) {
                            lemma_prefix_legal(self@, i + 1);
                        }
                    }
                    return false;
                }
                proof {
                    lemma_tally_place(rows@, before, Unit::Row, i, digit@);
                    lemma_tally_place(columns@, before, Unit::Column, i, digit@);
                    lemma_tally_place(blocks@, before, Unit::Block, i, digit@);
                }
                rows[r] = rows[r] | mask;
                columns[c] = columns[c] | mask;
                blocks[b] = blocks[b] | mask;
            } else {
                assert(prefix(self@, i + 1) =~= before);
            }
        }
        assert(prefix(self@, 81) =~= self@);
        true
    }

    /// Whether this grid is a finished, legal Sudoku.
    pub fn is_solved(&self) -> (done: bool)
        requires
            self.wf(),
        ensures
            done == solved(self@),
    {
        self.is_complete() && self.is_valid()
    }

    /// Eighty-one characters in reading order, `.` for an empty cell.
    pub fn to_line(&self) -> (line: String)
        requires
            self.wf(),
        ensures
            line@ == line_of(self@),
    {
        let mut line = String::new();
        for index in 0..81usize
            invariant
                self.wf(),
                line@ =~= line_of(self@).take(index as int),
        {
            let c: char = match self.get(Cell::at(index)) {
                Some(digit) => (48 + digit.value()) as char,
                None => '.',
            };
            push_char(&mut line, c);
        }
        assert(line_of(self@).take(81) =~= line_of(self@));
        line
    }

    /// Parses [`Self::to_line`]'s output, accepting `0` and `.` for an empty
    /// cell. `None` if it is not exactly 81 valid characters.
    pub fn parse_line(text: &str) -> (grid: Option<Self>)
        ensures
            grid is Some <==> is_line(text@),
            grid is Some ==> grid->0.wf() && grid->0@ == board_of_line(text@),
    {
        if text.unicode_len() != 81 {
            return None;
        }
        let mut grid = Self::empty();
        assert(grid@ =~= Seq::new(81, |i: int| if i < 0 { char_value(text@[i])->0 } else { 0 }));
        for index in 0..81usize
            invariant
                text@.len() == 81,
                grid.wf(),
                forall|i: int| 0 <= i < index ==> char_value(#[trigger] text@[i]) is Some,
                grid@ == Seq::new(
                    81,
                    |i: int| if i < index { char_value(text@[i])->0 } else { 0 },
                ),
        {
            let character: char = text.get_char(index);
            match character {
                '.' | '0' => {},
                '1'..='9' => {
                    let digit = Digit::new((character as u8) - 48);
                    grid.set(Cell::at(index), digit);
                },
                _ => {
                    assert(char_value(text@[index as int]) is None);
                    return None;
                },
            }
            assert(grid@ =~= Seq::new(
                81,
                |i: int| if i < index + 1 { char_value(text@[i])->0 } else { 0 },
            ));
        }
        assert(grid@ =~= board_of_line(text@));
        Some(grid)
    }
}

/// What a well-formed grid shows is a board.
pub proof fn lemma_grid_is_board(grid: Grid)
    requires
        grid.wf(),
    ensures
        is_board(grid@),
{
    assert forall|i: int| 0 <= i < 81 implies 0 <= #[trigger] grid@[i] <= 9 by {
        assert(grid.cells@[i] <= 9);
    }
}

/// A grid is no more than the numbers it shows.
pub proof fn lemma_grid_by_view(a: Grid, b: Grid)
    requires
        a.wf(),
        b.wf(),
        a@ == b@,
    ensures
        a == b,
{
    assert forall|i: int| 0 <= i < 81 implies a.cells[i] == b.cells[i] by {
        assert(a@[i] == a.cells@[i]);
        assert(b@[i] == b.cells@[i]);
    }
    assert(a.cells =~= b.cells);
}

pub proof fn lemma_prefix_legal(s: Seq<int>, n: int)
    requires
        legal(s),
        n <= 81,
    ensures
        legal(prefix(s, n)),
{
    let t = prefix(s, n);
    assert forall|i: int, j: int|
        0 <= i < 81 && 0 <= j < 81 && #[trigger] are_peers(i, j) && t[i] != 0 implies t[i]
        != t[j] by {
        assert(s[i] != s[j]);
    }
}

/// A grid round-trips through its line form.
pub proof fn law_line_round_trip(grid: Grid)
    requires
        grid.wf(),
    ensures
        is_line(line_of(grid@)),
        board_of_line(line_of(grid@)) == grid@,
{
    lemma_grid_is_board(grid);
    let line = line_of(grid@);
    assert forall|i: int| 0 <= i < 81 implies char_value(#[trigger] line[i]) == Some(grid@[i]) by {
        assert(0 <= grid@[i] <= 9);
    }
    assert(board_of_line(line) =~= grid@);
}

} // verus!
