//! A digit, a cell, and the grid the two address.

use vstd::prelude::*;
use vstd::string::*;

use crate::sudoku_rules::model::{are_peers, block_of, column_of, lemma_coordinates, row_of};
use crate::text::{decimal, push_char, push_decimal};

verus! {

/// A digit, `1` through `9`.
///
/// A newtype rather than a `u8` because a grid holds `Option<Digit>`, and
/// "empty" being `None` rather than `0` is what stops an empty cell ever being
/// compared against, placed, or counted as a digit.
#[derive(Debug, Clone, Copy, PartialEq, Eq, PartialOrd, Ord, Hash, Structural)]
pub struct Digit(pub(crate) u8);

impl Digit {
    /// The `1..=9` value.
    pub open(crate) spec fn view(&self) -> int {
        self.0 as int
    }

    /// Every digit a caller can hold is one through nine.
    pub open(crate) spec fn wf(&self) -> bool {
        1 <= self.0 <= 9
    }

    /// Every digit, ascending.
    pub fn all() -> (digits: [Digit; 9])
        ensures
            forall|i: int| 0 <= i < 9 ==> (#[trigger] digits@[i]).wf() && digits@[i]@ == i + 1,
    {
        [Digit(1), Digit(2), Digit(3), Digit(4), Digit(5), Digit(6), Digit(7), Digit(8), Digit(9)]
    }

    /// Builds a digit from `1..=9`, or `None` for anything else.
    pub fn new(value: u8) -> (digit: Option<Self>)
        ensures
            digit is Some <==> 1 <= value <= 9,
            digit is Some ==> digit->0.wf() && digit->0@ == value,
    {
        if matches!(value, 1..=9) {
            Some(Self(value))
        } else {
            None
        }
    }

    /// The `1..=9` value.
    pub fn value(self) -> (value: u8)
        requires
            self.wf(),
        ensures
            value == self@,
            1 <= value <= 9,
    {
        self.0
    }

    /// The bit this digit occupies in a candidate mask.
    pub fn mask(self) -> (mask: u16)
        requires
            self.wf(),
        ensures
            mask == 1u16 << (self@ as u16),
    {
        1u16 << (self.0 as u16)
    }

    /// The digit as text.
    pub fn text(self) -> (text: String)
        requires
            self.wf(),
        ensures
            text@ == decimal(self@ as nat),
    {
        crate::text::decimal_text(self.0 as u64)
    }
}

/// One of the eighty-one cells: `row` down from the top, `column` across from
/// the left, both `0..9`.
///
/// Row-major with the origin top-left, because the renderer, the save file and
/// the solver's flat array all want the same order. The one-based `R4C7`
/// spelling exists for people, in [`Cell::name`], and nowhere else.
#[derive(Debug, Clone, Copy, PartialEq, Eq, PartialOrd, Ord, Hash, Structural)]
pub struct Cell {
    pub(crate) row: u8,
    pub(crate) column: u8,
}

/// The cell at an index that is on the grid.
pub open(crate) spec fn cell_of(index: int) -> Cell {
    Cell { row: (index / 9) as u8, column: (index % 9) as u8 }
}

/// The cells before `n`, in reading order, that are peers of cell `i`.
pub open spec fn peers_before(i: int, n: int) -> Seq<int>
    decreases n,
{
    if n <= 0 {
        Seq::empty()
    } else if are_peers(i, n - 1) {
        peers_before(i, n - 1).push(n - 1)
    } else {
        peers_before(i, n - 1)
    }
}

/// The peers of cell `i`, in reading order.
pub open spec fn peers_of(i: int) -> Seq<int> {
    peers_before(i, 81)
}

/// Where each of `cells` stands.
pub open spec fn indices(cells: Seq<Cell>) -> Seq<int> {
    cells.map_values(|cell: Cell| cell@)
}

/// The one-based spelling of the cell at `index`.
pub open spec fn cell_name(index: int) -> Seq<char> {
    seq!['R'] + decimal((row_of(index) + 1) as nat) + seq!['C'] + decimal(
        (column_of(index) + 1) as nat,
    )
}

impl Cell {
    /// The `0..81` row-major index.
    pub open(crate) spec fn view(&self) -> int {
        self.row * 9 + self.column
    }

    /// Every cell a caller can hold is on the grid.
    pub open(crate) spec fn wf(&self) -> bool {
        self.row < 9 && self.column < 9
    }

    /// Builds a cell from `0..9` indices, or `None` if either is off the grid.
    pub fn new(row: u8, column: u8) -> (cell: Option<Self>)
        ensures
            cell is Some <==> row < 9 && column < 9,
            cell is Some ==> cell->0.wf() && cell->0@ == row * 9 + column,
    {
        if row < 9 && column < 9 {
            Some(Self { row, column })
        } else {
            None
        }
    }

    /// The `0..9` row, counting down from the top.
    pub fn row(self) -> (row: u8)
        requires
            self.wf(),
        ensures
            row == row_of(self@),
            row < 9,
    {
        self.row
    }

    /// The `0..9` column, counting across from the left.
    pub fn column(self) -> (column: u8)
        requires
            self.wf(),
        ensures
            column == column_of(self@),
            column < 9,
    {
        self.column
    }

    /// Which 3x3 block this cell is in, `0..9` in reading order.
    pub fn block(self) -> (block: u8)
        requires
            self.wf(),
        ensures
            block == block_of(self@),
            block < 9,
    {
        assert(self@ / 27 == self.row as int / 3);
        (self.row / 3) * 3 + self.column / 3
    }

    /// The `0..81` row-major index.
    pub fn index(self) -> (index: usize)
        requires
            self.wf(),
        ensures
            index == self@,
            index < 81,
    {
        self.row as usize * 9 + self.column as usize
    }

    /// The cell at a `0..81` row-major index.
    pub fn from_index(index: usize) -> (cell: Option<Self>)
        ensures
            cell is Some <==> index < 81,
            cell is Some ==> cell->0.wf() && cell->0@ == index,
    {
        if index < 81 {
            Self::new((index / 9) as u8, (index % 9) as u8)
        } else {
            None
        }
    }

    /// The cell at an index that is on the grid.
    pub(crate) fn at(index: usize) -> (cell: Self)
        requires
            index < 81,
        ensures
            cell.wf(),
            cell@ == index,
    {
        Self { row: (index / 9) as u8, column: (index % 9) as u8 }
    }

    /// Every cell, in reading order.
    pub fn all() -> (cells: Vec<Cell>)
        ensures
            cells@.len() == 81,
            forall|i: int| 0 <= i < 81 ==> (#[trigger] cells@[i]).wf() && cells@[i]@ == i,
    {
        let mut cells: Vec<Cell> = Vec::new();
        for index in 0..81usize
            invariant
                cells@.len() == index,
                forall|i: int|
                    0 <= i < index ==> (#[trigger] cells@[i]).wf() && cells@[i]@ == i,
        {
            cells.push(Cell::at(index));
        }
        cells
    }

    /// Whether `other` is another cell that shares a row, a column or a block
    /// with this one.
    pub(crate) fn is_peer(self, other: Cell) -> (peer: bool)
        requires
            self.wf(),
            other.wf(),
        ensures
            peer == are_peers(self@, other@),
    {
        other != self && (other.row() == self.row() || other.column() == self.column()
            || other.block() == self.block())
    }

    /// The twenty other cells that share a row, a column or a block with this
    /// one: exactly the cells a digit here rules out, in reading order.
    pub fn peers(self) -> (cells: Vec<Cell>)
        requires
            self.wf(),
        ensures
            indices(cells@) == peers_of(self@),
            forall|i: int| 0 <= i < cells@.len() ==> (#[trigger] cells@[i]).wf(),
            cells@.len() == 20,
    {
        let mut cells: Vec<Cell> = Vec::new();
        for index in 0..81usize
            invariant
                self.wf(),
                indices(cells@) =~= peers_before(self@, index as int),
                forall|i: int| 0 <= i < cells@.len() ==> (#[trigger] cells@[i]).wf(),
        {
            let other = Cell::at(index);
            if self.is_peer(other) {
                cells.push(other);
            }
        }
        proof {
            law_twenty_peers(self);
            assert(indices(cells@).len() == cells@.len());
        }
        cells
    }

    /// The one-based `R4C7` spelling, for a status line or an error message.
    pub fn name(self) -> (name: String)
        requires
            self.wf(),
        ensures
            name@ == cell_name(self@),
    {
        let mut name = String::new();
        push_char(&mut name, 'R');
        push_decimal(&mut name, (self.row + 1) as u64);
        push_char(&mut name, 'C');
        push_decimal(&mut name, (self.column + 1) as u64);
        assert(name@ =~= cell_name(self@));
        name
    }
}

/// Two cells at the same index are the same cell.
pub proof fn law_index_names_the_cell(a: Cell, b: Cell)
    requires
        a.wf(),
        b.wf(),
        a@ == b@,
    ensures
        a == b,
{
}

/// What `peers_before` lists: every peer before `n`, once each.
proof fn lemma_peers_before(i: int, n: int)
    ensures
        forall|j: int| #[trigger]
            peers_before(i, n).contains(j) <==> (0 <= j < n && are_peers(i, j)),
        peers_before(i, n).no_duplicates(),
    decreases n,
{
    if n > 0 {
        lemma_peers_before(i, n - 1);
        let before = peers_before(i, n - 1);
        if are_peers(i, n - 1) {
            let now = before.push(n - 1);
            assert forall|j: int| #[trigger] now.contains(j) implies (0 <= j < n && are_peers(
                i,
                j,
            )) by {
                let k = choose|k: int| 0 <= k < now.len() && now[k] == j;
                if k < before.len() {
                    assert(before[k] == j);
                    assert(before.contains(j));
                }
            }
            assert forall|j: int| 0 <= j < n && are_peers(i, j) implies #[trigger] now.contains(
                j,
            ) by {
                if j == n - 1 {
                    assert(now[now.len() - 1] == j);
                } else {
                    assert(before.contains(j));
                    let k = choose|k: int| 0 <= k < before.len() && before[k] == j;
                    assert(now[k] == j);
                }
            }
            assert(!before.contains(n - 1));
            assert forall|a: int, b: int|
                0 <= a < now.len() && 0 <= b < now.len() && a != b implies now[a] != now[b] by {
                if a < before.len() {
                    assert(before.contains(before[a]));
                }
                if b < before.len() {
                    assert(before.contains(before[b]));
                }
            }
        }
    }
}

/// When the cells at `(r, c)` and `(k, m)` are peers.
proof fn lemma_peers_by_coordinates(r: int, c: int, k: int, m: int)
    requires
        0 <= r < 9,
        0 <= c < 9,
        0 <= k < 9,
        0 <= m < 9,
    ensures
        are_peers(r * 9 + c, k * 9 + m) <==> !(k == r && m == c) && (k == r || m == c || (k / 3 == r
            / 3 && m / 3 == c / 3)),
{
    lemma_coordinates(r, c);
    lemma_coordinates(k, m);
    let (a, b, x, y) = (r / 3, c / 3, k / 3, m / 3);
    assert(0 <= b < 3 && 0 <= y < 3);
    assert(a * 3 + b == x * 3 + y <==> a == x && b == y);
}

/// How many peers of `(r, c)` the cell `(k, m)` adds.
spec fn adds(r: int, c: int, k: int, m: int) -> int {
    if k == r {
        if m == c {
            0
        } else {
            1
        }
    } else if m == c || (k / 3 == r / 3 && m / 3 == c / 3) {
        1
    } else {
        0
    }
}

proof fn lemma_peers_step(r: int, c: int, k: int, m: int)
    requires
        0 <= r < 9,
        0 <= c < 9,
        0 <= k < 9,
        0 <= m < 9,
    ensures
        peers_before(r * 9 + c, k * 9 + m + 1).len() == peers_before(r * 9 + c, k * 9 + m).len()
            + adds(r, c, k, m),
{
    lemma_peers_by_coordinates(r, c, k, m);
}

/// How many peers one row adds: eight in the cell's own row, three in the
/// other rows of its block, one elsewhere.
proof fn lemma_peers_in_row(r: int, c: int, k: int)
    requires
        0 <= r < 9,
        0 <= c < 9,
        0 <= k < 9,
    ensures
        peers_before(r * 9 + c, k * 9 + 9).len() == peers_before(r * 9 + c, k * 9).len() + (if k
            == r {
            8int
        } else if k / 3 == r / 3 {
            3
        } else {
            1
        }),
{
    lemma_peers_step(r, c, k, 0);
    lemma_peers_step(r, c, k, 1);
    lemma_peers_step(r, c, k, 2);
    lemma_peers_step(r, c, k, 3);
    lemma_peers_step(r, c, k, 4);
    lemma_peers_step(r, c, k, 5);
    lemma_peers_step(r, c, k, 6);
    lemma_peers_step(r, c, k, 7);
    lemma_peers_step(r, c, k, 8);
}

/// Every cell has exactly twenty peers, each listed once.
pub proof fn law_twenty_peers(cell: Cell)
    requires
        cell.wf(),
    ensures
        peers_of(cell@).len() == 20,
        peers_of(cell@).no_duplicates(),
        forall|j: int| #[trigger]
            peers_of(cell@).contains(j) <==> (0 <= j < 81 && are_peers(cell@, j)),
{
    let (r, c) = (cell.row as int, cell.column as int);
    lemma_peers_before(cell@, 81);
    lemma_peers_in_row(r, c, 0);
    lemma_peers_in_row(r, c, 1);
    lemma_peers_in_row(r, c, 2);
    lemma_peers_in_row(r, c, 3);
    lemma_peers_in_row(r, c, 4);
    lemma_peers_in_row(r, c, 5);
    lemma_peers_in_row(r, c, 6);
    lemma_peers_in_row(r, c, 7);
    lemma_peers_in_row(r, c, 8);
    assert(peers_before(cell@, 0).len() == 0);
}

} // verus!
