//! Solving, and counting solutions, which is how uniqueness is decided.
//!
//! One backtracking search over bitmask constraint sets, picking the most
//! constrained empty cell first.

use vstd::prelude::*;

use crate::sudoku_rules::grid::{lemma_grid_is_board, prefix, Grid};
use crate::sudoku_rules::mask::{
    holds, lemma_mask_candidates, lemma_mask_union, lemma_tally_empty, lemma_tally_fits,
    lemma_tally_lift, lemma_tally_place, marks, tally, Unit, ALL_DIGITS,
};
use crate::sudoku_rules::model::{
    block_of, column_of, empties, empty_board, fits, full, is_board, is_solution, legal,
    lemma_complete_solutions, lemma_empty_solvable, lemma_first_cell_free, lemma_illegal_unsolvable,
    lemma_lift_legal, lemma_place_legal, lemma_place_shrinks, lemma_solutions_finite,
    lemma_split_bounds, lemma_split_by_digit, row_of, solutions_of, solutions_up_to, solved, unique,
};
use crate::sudoku_rules::rng::{lemma_shuffle_map, lemma_shuffle_permutes, shuffled, Rng};
use crate::sudoku_rules::types::{Cell, Digit};

verus! {

/// The digits `1..=n` that fit cell `i`, ascending.
pub open spec fn candidates_up_to(s: Seq<int>, i: int, n: int) -> Seq<int>
    decreases n,
{
    if n <= 0 {
        Seq::empty()
    } else if fits(s, i, n) {
        candidates_up_to(s, i, n - 1).push(n)
    } else {
        candidates_up_to(s, i, n - 1)
    }
}

/// The digits that fit cell `i`, ascending.
pub open spec fn candidates(s: Seq<int>, i: int) -> Seq<int> {
    candidates_up_to(s, i, 9)
}

/// Cell `i` is where the search goes on: the first empty cell with at most one
/// candidate or, where every empty cell has more, the first with the fewest.
pub open spec fn is_choice(s: Seq<int>, i: int) -> bool {
    let fewest = candidates(s, i).len();
    &&& 0 <= i < 81
    &&& s[i] == 0
    &&& forall|j: int|
        0 <= j < 81 && #[trigger] s[j] == 0 ==> {
            &&& j < i ==> candidates(s, j).len() > fewest && candidates(s, j).len() > 1
            &&& fewest > 1 ==> candidates(s, j).len() >= fewest
        }
}

/// The cell where the search goes on.
pub open spec fn choice(s: Seq<int>) -> int {
    choose|i: int| is_choice(s, i)
}

proof fn lemma_choice(s: Seq<int>, i: int)
    requires
        is_choice(s, i),
    ensures
        choice(s) == i,
{
    let j = choice(s);
    assert(is_choice(s, j));
    assert(s[i] == 0 && s[j] == 0);
}

/// The search state: the digits placed so far, and what each unit still
/// allows.
#[derive(Debug)]
pub struct Search {
    /// The digit in each cell, `0` for empty.
    values: [u8; 81],
    /// Digits already used, per row, column and block.
    rows: [u16; 9],
    columns: [u16; 9],
    blocks: [u16; 9],
}

impl Search {
    /// The digits placed so far.
    pub closed spec fn board(&self) -> Seq<int> {
        Seq::new(81, |i: int| self.values@[i] as int)
    }

    /// The digits placed so far break no constraint, and the masks say which
    /// they are.
    pub closed spec fn wf(&self) -> bool {
        &&& is_board(self.board())
        &&& legal(self.board())
        &&& tally(self.rows@, self.board(), Unit::Row)
        &&& tally(self.columns@, self.board(), Unit::Column)
        &&& tally(self.blocks@, self.board(), Unit::Block)
    }

    pub proof fn lemma_wf(&self)
        requires
            self.wf(),
        ensures
            is_board(self.board()),
            legal(self.board()),
    {
    }

    /// Loads `grid`, or `None` if it already breaks a constraint.
    pub fn load(grid: &Grid) -> (search: Option<Self>)
        requires
            grid.wf(),
        ensures
            search is Some <==> legal(grid@),
            search is Some ==> search->0.wf() && search->0.board() == grid@,
    {
        let mut search = Self { values: [0; 81], rows: [0; 9], columns: [0; 9], blocks: [0; 9] };
        proof {
            let none = prefix(grid@, 0);
            assert(search.board() =~= none);
            lemma_tally_empty(search.rows@, none, Unit::Row);
            lemma_tally_empty(search.columns@, none, Unit::Column);
            lemma_tally_empty(search.blocks@, none, Unit::Block);
        }
        for index in 0..81usize
            invariant
                grid.wf(),
                search.wf(),
                search.board() == prefix(grid@, index as int),
        {
            let cell = Cell::at(index);
            let ghost i = index as int;
            let ghost before = search.board();
            if let Some(digit) = grid.get(cell) {
                let used: u16 = search.used(cell);
                let mask: u16 = digit.mask();
                proof {
                    assert(prefix(grid@, i + 1) =~= before.update(i, digit@));
                    lemma_place_legal(before, i, digit@);
                    assert(marks(used, digit@) <==> used & mask != 0);
                }
                if used & mask != 0 {
                    proof {
                        if legal(grid@) {
                            crate::sudoku_rules::grid::lemma_prefix_legal(grid@, i + 1);
                        }
                    }
                    return None;
                }
                search.place(cell, digit.value());
            } else {
                assert(prefix(grid@, i + 1) =~= before);
            }
        }
        assert(prefix(grid@, 81) =~= grid@);
        Some(search)
    }

    /// The digits `cell`'s row, column and block have between them.
    pub fn used(&self, cell: Cell) -> (used: u16)
        requires
            self.wf(),
            cell.wf(),
        ensures
            forall|v: int|
                1 <= v <= 9 ==> (#[trigger] marks(used, v) <==> holds(
                    self.board(),
                    Unit::Row,
                    row_of(cell@),
                    v,
                ) || holds(self.board(), Unit::Column, column_of(cell@), v) || holds(
                    self.board(),
                    Unit::Block,
                    block_of(cell@),
                    v,
                )),
            self.board()[cell@] == 0 ==> forall|v: int|
                1 <= v <= 9 ==> (#[trigger] marks(used, v) <==> !fits(self.board(), cell@, v)),
    {
        let r: usize = cell.row() as usize;
        let c: usize = cell.column() as usize;
        let b: usize = cell.block() as usize;
        let used: u16 = self.rows[r] | self.columns[c] | self.blocks[b];
        proof {
            assert forall|v: int| 1 <= v <= 9 implies (#[trigger] marks(used, v) <==> holds(
                self.board(),
                Unit::Row,
                r as int,
                v,
            ) || holds(self.board(), Unit::Column, c as int, v) || holds(
                self.board(),
                Unit::Block,
                b as int,
                v,
            )) by {
                lemma_mask_union(
                    self.rows@[r as int],
                    self.columns@[c as int],
                    self.blocks@[b as int],
                    v,
                );
            }
            if self.board()[cell@] == 0 {
                assert forall|v: int| 1 <= v <= 9 implies (#[trigger] marks(used, v) <==> !fits(
                    self.board(),
                    cell@,
                    v,
                )) by {
                    lemma_mask_union(
                        self.rows@[r as int],
                        self.columns@[c as int],
                        self.blocks@[b as int],
                        v,
                    );
                    lemma_tally_fits(
                        self.rows@,
                        self.columns@,
                        self.blocks@,
                        self.board(),
                        cell@,
                        v,
                    );
                }
            }
        }
        used
    }

    /// Puts a digit in an empty cell where it fits.
    pub fn place(&mut self, cell: Cell, value: u8)
        requires
            old(self).wf(),
            cell.wf(),
            1 <= value <= 9,
            old(self).board()[cell@] == 0,
            fits(old(self).board(), cell@, value as int),
        ensures
            final(self).wf(),
            final(self).board() == old(self).board().update(cell@, value as int),
    {
        let mask: u16 = 1u16 << (value as u16);
        let index: usize = cell.index();
        let r: usize = cell.row() as usize;
        let c: usize = cell.column() as usize;
        let b: usize = cell.block() as usize;
        proof {
            let s = self.board();
            lemma_place_legal(s, cell@, value as int);
            lemma_tally_place(self.rows@, s, Unit::Row, cell@, value as int);
            lemma_tally_place(self.columns@, s, Unit::Column, cell@, value as int);
            lemma_tally_place(self.blocks@, s, Unit::Block, cell@, value as int);
        }
        self.values[index] = value;
        self.rows[r] = self.rows[r] | mask;
        self.columns[c] = self.columns[c] | mask;
        self.blocks[b] = self.blocks[b] | mask;
        assert(self.board() =~= old(self).board().update(cell@, value as int));
    }

    /// Takes a digit out of its cell again.
    pub fn lift(&mut self, cell: Cell, value: u8)
        requires
            old(self).wf(),
            cell.wf(),
            1 <= value <= 9,
            old(self).board()[cell@] == value,
        ensures
            final(self).wf(),
            final(self).board() == old(self).board().update(cell@, 0),
    {
        let mask: u16 = !(1u16 << (value as u16));
        let index: usize = cell.index();
        let r: usize = cell.row() as usize;
        let c: usize = cell.column() as usize;
        let b: usize = cell.block() as usize;
        proof {
            let s = self.board();
            lemma_lift_legal(s, cell@);
            lemma_tally_lift(self.rows@, s, Unit::Row, cell@, value as int);
            lemma_tally_lift(self.columns@, s, Unit::Column, cell@, value as int);
            lemma_tally_lift(self.blocks@, s, Unit::Block, cell@, value as int);
        }
        self.values[index] = 0;
        self.rows[r] = self.rows[r] & mask;
        self.columns[c] = self.columns[c] & mask;
        self.blocks[b] = self.blocks[b] & mask;
        assert(self.board() =~= old(self).board().update(cell@, 0));
    }

    /// The digits that fit `cell`, as a mask, and how many they are.
    fn open_digits(&self, cell: Cell) -> (open: (u16, u32))
        requires
            self.wf(),
            cell.wf(),
            self.board()[cell@] == 0,
        ensures
            forall|v: int|
                1 <= v <= 9 ==> (#[trigger] marks(open.0, v) <==> fits(self.board(), cell@, v)),
            open.1 == candidates(self.board(), cell@).len(),
    {
        let used: u16 = self.used(cell);
        let mask: u16 = ALL_DIGITS & !used;
        let mut count: u32 = 0;
        proof {
            assert forall|v: int| 1 <= v <= 9 implies (#[trigger] marks(mask, v) <==> fits(
                self.board(),
                cell@,
                v,
            )) by {
                lemma_mask_candidates(used, v);
                assert(marks(used, v) <==> !fits(self.board(), cell@, v));
            }
        }
        for value in 1..10u8
            invariant
                1 <= value <= 10,
                count == candidates_up_to(self.board(), cell@, value - 1).len(),
                count < value,
                forall|v: int|
                    1 <= v <= 9 ==> (#[trigger] marks(mask, v) <==> fits(self.board(), cell@, v)),
        {
            assert(marks(mask, value as int) <==> mask & (1u16 << (value as u16)) != 0);
            if mask & (1u16 << (value as u16)) != 0 {
                count = count + 1;
            }
        }
        (mask, count)
    }

    /// The empty cell with the fewest candidates, and that candidate mask.
    ///
    /// `None` when the grid is full. A returned mask without a digit is a dead
    /// end, which is exactly what the caller needs to know before recursing.
    pub fn most_constrained(&self) -> (found: Option<(Cell, u16)>)
        requires
            self.wf(),
        ensures
            found is None <==> full(self.board()),
            found is Some ==> {
                let (cell, mask) = found->0;
                &&& cell.wf()
                &&& self.board()[cell@] == 0
                &&& is_choice(self.board(), cell@)
                &&& choice(self.board()) == cell@
                &&& forall|v: int|
                    1 <= v <= 9 ==> (#[trigger] marks(mask, v) <==> fits(self.board(), cell@, v))
            },
    {
        let mut best: Option<(Cell, u16, u32)> = None;
        let ghost s = self.board();
        for index in 0..81usize
            invariant
                self.wf(),
                s == self.board(),
                best is None ==> forall|j: int| 0 <= j < index ==> #[trigger] s[j] != 0,
                best is Some ==> {
                    let (cell, mask, fewest) = best->0;
                    &&& cell.wf()
                    &&& cell@ < index
                    &&& s[cell@] == 0
                    &&& fewest == candidates(s, cell@).len()
                    &&& fewest > 1
                    &&& forall|v: int|
                        1 <= v <= 9 ==> (#[trigger] marks(mask, v) <==> fits(s, cell@, v))
                    &&& forall|j: int|
                        0 <= j < index && #[trigger] s[j] == 0 ==> candidates(s, j).len() >= fewest
                            && (j < cell@ ==> candidates(s, j).len() > fewest)
                },
        {
            assert(s[index as int] == self.values@[index as int]);
            if self.values[index] == 0 {
                let cell = Cell::at(index);
                let (mask, count) = self.open_digits(cell);
                if count <= 1 {
                    proof {
                        assert(is_choice(s, index as int));
                        lemma_choice(s, index as int);
                    }
                    return Some((cell, mask));
                }
                match best {
                    None => {
                        best = Some((cell, mask, count));
                    },
                    Some((_, _, fewest)) => {
                        if count < fewest {
                            best = Some((cell, mask, count));
                        }
                    },
                }
            }
        }
        match best {
            None => None,
            Some((cell, mask, fewest)) => {
                proof {
                    assert(is_choice(s, cell@));
                    lemma_choice(s, cell@);
                }
                Some((cell, mask))
            },
        }
    }
    /// Counts solutions into `found`, stopping once it reaches `limit`.
    pub fn count(&mut self, limit: usize, found: &mut usize)
        requires
            old(self).wf(),
        ensures
            final(self).wf(),
            final(self).board() == old(self).board(),
            *final(found) == counted(*old(found) as int, limit as int, old(self).board()),
        decreases empties(old(self).board()),
    {
        let ghost s = self.board();
        let ghost start = *found as int;
        proof {
            self.lemma_wf();
            lemma_solutions_finite(s);
        }
        if *found >= limit {
            return;
        }
        let (cell, candidates) = match self.most_constrained() {
            Some(choice) => choice,
            None => {
                proof {
                    lemma_complete_solutions(s);
                }
                *found = *found + 1;
                return;
            },
        };
        proof {
            lemma_split_bounds(s, cell@);
        }
        for value in 1..10u8
            invariant
                self.wf(),
                s == old(self).board(),
                self.board() == s,
                is_board(s),
                legal(s),
                cell.wf(),
                0 <= cell@ < 81,
                s[cell@] == 0,
                1 <= value <= 10,
                forall|v: int|
                    1 <= v <= 9 ==> (#[trigger] marks(candidates, v) <==> fits(s, cell@, v)),
                solutions_of(s).finite(),
                solutions_up_to(s, cell@, value - 1).finite(),
                0 <= start < limit,
                *found < limit,
                *found == start + solutions_up_to(s, cell@, value - 1).len(),
                start == *old(found),
        {
            let ghost next = s.update(cell@, value as int);
            proof {
                assert(marks(candidates, value as int) <==> candidates & (1u16 << (value as u16))
                    != 0);
                lemma_place_legal(s, cell@, value as int);
                lemma_place_shrinks(s, cell@, value as int);
                lemma_solutions_finite(next);
                lemma_split_by_digit(s, cell@, value as int);
                vstd::set_lib::lemma_len_subset(
                    solutions_up_to(s, cell@, value as int),
                    solutions_of(s),
                );
            }
            if candidates & (1u16 << (value as u16)) != 0 {
                self.place(cell, value);
                self.count(limit, found);
                self.lift(cell, value);
                assert(next.update(cell@, 0) =~= s);
                if *found >= limit {
                    return;
                }
            } else {
                proof {
                    lemma_illegal_unsolvable(next);
                }
            }
        }
        proof {
            lemma_split_bounds(s, cell@);
        }
    }
    /// Fills the grid, taking the first solution found. With `rng`, candidate
    /// order is shuffled, which is what makes generated puzzles differ.
    pub fn fill(&mut self, rng: &mut Option<Rng>) -> (filled: bool)
        requires
            old(self).wf(),
        ensures
            final(self).wf(),
            (
                if filled {
                    Some(final(self).board())
                } else {
                    None
                },
                stream_of(*final(rng)),
            ) == first_solution(old(self).board(), stream_of(*old(rng))),
            !filled ==> final(self).board() == old(self).board(),
        decreases empties(old(self).board()),
    {
        let ghost s = self.board();
        proof {
            self.lemma_wf();
        }
        let (cell, candidates) = match self.most_constrained() {
            Some(choice) => choice,
            None => {
                return true;
            },
        };
        let mut order: Vec<Digit> = Vec::new();
        for value in 1..10u8
            invariant
                1 <= value <= 10,
                forall|v: int|
                    1 <= v <= 9 ==> (#[trigger] marks(candidates, v) <==> fits(s, cell@, v)),
                forall|k: int| 0 <= k < order@.len() ==> (#[trigger] order@[k]).wf(),
                digit_values(order@) =~= candidates_up_to(s, cell@, value - 1),
        {
            assert(marks(candidates, value as int) <==> candidates & (1u16 << (value as u16)) != 0);
            if candidates & (1u16 << (value as u16)) != 0 {
                order.push(Digit(value));
            }
        }
        let ghost listed = order@;
        let ghost before = stream_of(*rng);
        if let Some(stream) = *rng {
            let mut stream = stream;
            stream.shuffle(order.as_mut_slice());
            proof {
                lemma_shuffle_map(
                    listed,
                    |digit: Digit| digit@,
                    listed.len() as int,
                    before->0,
                );
                lemma_same_multiset_wf(listed, order@);
            }
            *rng = Some(stream);
        }
        proof {
            assert((digit_values(order@), stream_of(*rng)) == search_order(
                self::candidates(s, cell@),
                before,
            ));
            lemma_candidates_in_order(s, cell@, before);
            assert(digit_values(order@).take(0) =~= Seq::<int>::empty());
            assert(digit_values(order@).skip(0) =~= digit_values(order@));
        }
        let ghost goal = first_solution(s, before);
        let mut next: usize = 0;
        while next < order.len()
            invariant
                self.wf(),
                self.board() == s,
                s == old(self).board(),
                is_board(s),
                legal(s),
                cell.wf(),
                0 <= cell@ < 81,
                s[cell@] == 0,
                next <= order@.len(),
                forall|k: int| 0 <= k < order@.len() ==> (#[trigger] order@[k]).wf(),
                forall|k: int|
                    0 <= k < order@.len() ==> fits(s, cell@, #[trigger] digit_values(order@)[k]),
                goal == first_solution(s, stream_of(*old(rng))),
                goal == try_digits(
                    s,
                    cell@,
                    digit_values(order@).skip(next as int),
                    stream_of(*rng),
                ),
            decreases order@.len() - next,
        {
            let digit = order[next];
            let ghost rest = digit_values(order@).skip(next as int);
            let ghost placed = s.update(cell@, digit@);
            proof {
                assert(digit_values(order@)[next as int] == digit@);
                assert(rest[0] == digit@);
                assert(rest.drop_first() =~= digit_values(order@).skip(next + 1));
                lemma_place_shrinks(s, cell@, digit@);
            }
            self.place(cell, digit.value());
            if self.fill(rng) {
                return true;
            }
            self.lift(cell, digit.value());
            assert(placed.update(cell@, 0) =~= s);
            next = next + 1;
        }
        false
    }

    /// The digits placed so far, as a grid.
    pub fn grid(&self) -> (grid: Grid)
        requires
            self.wf(),
        ensures
            grid.wf(),
            grid@ == self.board(),
    {
        let mut grid = Grid::empty();
        assert(grid@ =~= prefix(self.board(), 0));
        for index in 0..81usize
            invariant
                self.wf(),
                grid.wf(),
                grid@ == prefix(self.board(), index as int),
        {
            proof {
                assert(0 <= self.board()[index as int] <= 9);
            }
            let digit = Digit::new(self.values[index]);
            grid.set(Cell::at(index), digit);
            assert(grid@ =~= prefix(self.board(), index + 1));
        }
        assert(grid@ =~= self.board());
        grid
    }
}

/// The numbers digits stand for.
pub open spec fn digit_values(digits: Seq<Digit>) -> Seq<int> {
    digits.map_values(|digit: Digit| digit@)
}

/// Where an optional stream has got to.
pub open spec fn stream_of(rng: Option<Rng>) -> Option<u64> {
    match rng {
        None => None,
        Some(stream) => Some(stream@),
    }
}

/// The order in which the search tries digits: as they are without a stream,
/// shuffled by it with one.
pub open spec fn search_order(digits: Seq<int>, stream: Option<u64>) -> (Seq<int>, Option<u64>) {
    match stream {
        None => (digits, None),
        Some(state) => {
            let (order, after) = shuffled(digits, digits.len() as int, state);
            (order, Some(after))
        },
    }
}

/// The solution of `s` that the search comes to first, and where the stream
/// that orders its guesses stands afterwards.
pub open spec fn first_solution(s: Seq<int>, stream: Option<u64>) -> (
    Option<Seq<int>>,
    Option<u64>,
)
    decreases empties(s), 1int, 0int,
{
    if full(s) {
        (Some(s), stream)
    } else {
        let i = choice(s);
        let (order, after) = search_order(candidates(s, i), stream);
        try_digits(s, i, order, after)
    }
}

/// The solution of `s` that trying the digits of `order` in cell `i`, one after
/// the other, comes to first.
pub open spec fn try_digits(s: Seq<int>, i: int, order: Seq<int>, stream: Option<u64>) -> (
    Option<Seq<int>>,
    Option<u64>,
)
    decreases empties(s), 0int, order.len(),
    when s.len() == 81 && 0 <= i < 81 && s[i] == 0 && (order.len() > 0 ==> order[0] != 0)
    via try_digits_decreases
{
    if order.len() == 0 {
        (None, stream)
    } else {
        let (found, after) = first_solution(s.update(i, order[0]), stream);
        if found is Some {
            (found, after)
        } else {
            try_digits(s, i, order.drop_first(), after)
        }
    }
}

#[via_fn]
proof fn try_digits_decreases(s: Seq<int>, i: int, order: Seq<int>, stream: Option<u64>) {
    if order.len() > 0 {
        lemma_place_shrinks(s, i, order[0]);
    }
}

proof fn lemma_same_multiset_wf(before: Seq<Digit>, after: Seq<Digit>)
    requires
        before.to_multiset() == after.to_multiset(),
        forall|k: int| 0 <= k < before.len() ==> (#[trigger] before[k]).wf(),
    ensures
        forall|k: int| 0 <= k < after.len() ==> (#[trigger] after[k]).wf(),
{
    broadcast use vstd::seq_lib::group_to_multiset_ensures;

    assert forall|k: int| 0 <= k < after.len() implies (#[trigger] after[k]).wf() by {
        assert(after.contains(after[k]));
        assert(after.to_multiset().count(after[k]) > 0);
        assert(before.contains(after[k]));
    }
}

/// The candidates of a cell are the digits that fit it.
pub proof fn lemma_candidates(s: Seq<int>, i: int, n: int)
    requires
        0 <= n <= 9,
    ensures
        forall|v: int| #[trigger]
            candidates_up_to(s, i, n).contains(v) <==> 1 <= v <= n && fits(s, i, v),
    decreases n,
{
    if n > 0 {
        lemma_candidates(s, i, n - 1);
        let before = candidates_up_to(s, i, n - 1);
        if fits(s, i, n) {
            let now = before.push(n);
            assert forall|v: int| #[trigger] now.contains(v) <==> 1 <= v <= n && fits(s, i, v) by {
                if now.contains(v) {
                    let k = choose|k: int| 0 <= k < now.len() && now[k] == v;
                    if k < before.len() {
                        assert(before.contains(before[k]));
                    }
                }
                if before.contains(v) {
                    let k = choose|k: int| 0 <= k < before.len() && before[k] == v;
                    assert(now[k] == v);
                }
                if v == n {
                    assert(now[now.len() - 1] == v);
                }
            }
        }
    }
}

/// The search tries the digits that fit, in whatever order, and no others.
pub proof fn lemma_candidates_in_order(s: Seq<int>, i: int, stream: Option<u64>)
    ensures
        forall|v: int| #[trigger]
            search_order(candidates(s, i), stream).0.contains(v) <==> 1 <= v <= 9 && fits(s, i, v),
        forall|k: int|
            0 <= k < search_order(candidates(s, i), stream).0.len() ==> fits(
                s,
                i,
                #[trigger] search_order(candidates(s, i), stream).0[k],
            ) && 1 <= search_order(candidates(s, i), stream).0[k] <= 9,
{
    broadcast use vstd::seq_lib::group_to_multiset_ensures;

    lemma_candidates(s, i, 9);
    let listed = candidates(s, i);
    let order = search_order(listed, stream).0;
    if stream is Some {
        lemma_shuffle_permutes(listed, listed.len() as int, stream->0);
    }
    assert(order.to_multiset() == listed.to_multiset());
    assert forall|v: int| #[trigger] order.contains(v) <==> 1 <= v <= 9 && fits(s, i, v) by {
        assert(order.contains(v) <==> order.to_multiset().count(v) > 0);
        assert(listed.contains(v) <==> listed.to_multiset().count(v) > 0);
    }
    assert forall|k: int| 0 <= k < order.len() implies fits(s, i, #[trigger] order[k]) && 1
        <= order[k] <= 9 by {
        assert(order.contains(order[k]));
    }
}

pub proof fn lemma_choice_exists(s: Seq<int>)
    requires
        is_board(s),
        !full(s),
    ensures
        is_choice(s, choice(s)),
{
    if exists|i: int| 0 <= i < 81 && #[trigger] s[i] == 0 && candidates(s, i).len() <= 1 {
        let i = choose|i: int| 0 <= i < 81 && #[trigger] s[i] == 0 && candidates(s, i).len() <= 1;
        let first = lemma_first_tight(s, i);
        assert(is_choice(s, first));
    } else {
        let i = choose|i: int| 0 <= i < 81 && #[trigger] s[i] == 0;
        let first = lemma_first_fewest(s, 81, i);
        assert(is_choice(s, first));
    }
}

proof fn lemma_first_tight(s: Seq<int>, i: int) -> (first: int)
    requires
        0 <= i < 81,
        s[i] == 0,
        candidates(s, i).len() <= 1,
    ensures
        0 <= first <= i,
        s[first] == 0,
        candidates(s, first).len() <= 1,
        forall|j: int| 0 <= j < first && #[trigger] s[j] == 0 ==> candidates(s, j).len() > 1,
    decreases i,
{
    if exists|j: int| 0 <= j < i && #[trigger] s[j] == 0 && candidates(s, j).len() <= 1 {
        let j = choose|j: int| 0 <= j < i && #[trigger] s[j] == 0 && candidates(s, j).len() <= 1;
        lemma_first_tight(s, j)
    } else {
        i
    }
}

proof fn lemma_first_fewest(s: Seq<int>, n: int, witness: int) -> (first: int)
    requires
        0 <= witness < n <= 81,
        s[witness] == 0,
    ensures
        0 <= first < n,
        s[first] == 0,
        forall|j: int|
            0 <= j < n && #[trigger] s[j] == 0 ==> candidates(s, j).len() >= candidates(
                s,
                first,
            ).len() && (j < first ==> candidates(s, j).len() > candidates(s, first).len()),
    decreases n,
{
    if exists|j: int| 0 <= j < n - 1 && #[trigger] s[j] == 0 {
        let j = choose|j: int| 0 <= j < n - 1 && #[trigger] s[j] == 0;
        let first = lemma_first_fewest(s, n - 1, j);
        if s[n - 1] == 0 && candidates(s, n - 1).len() < candidates(s, first).len() {
            n - 1
        } else {
            first
        }
    } else {
        witness
    }
}

/// The search finds a solution exactly where there is one.
pub proof fn lemma_first_solution(s: Seq<int>, stream: Option<u64>)
    requires
        is_board(s),
        legal(s),
    ensures
        first_solution(s, stream).0 is Some ==> is_solution(first_solution(s, stream).0->0, s),
        first_solution(s, stream).0 is None ==> solutions_of(s) =~= Set::<Seq<int>>::empty(),
        stream is Some <==> first_solution(s, stream).1 is Some,
    decreases empties(s), 1int, 0int,
{
    if !full(s) {
        let i = choice(s);
        lemma_choice_exists(s);
        let (order, after) = search_order(candidates(s, i), stream);
        lemma_candidates_in_order(s, i, stream);
        lemma_try_digits(s, i, order, after);
        if first_solution(s, stream).0 is None {
            assert forall|t: Seq<int>| !is_solution(t, s) by {
                if is_solution(t, s) {
                    let v = t[i];
                    let u = s.update(i, v);
                    assert(extends_at(t, s, i));
                    if order.contains(v) {
                        assert(solutions_of(u).contains(t));
                    } else {
                        assert(!fits(s, i, v));
                        lemma_place_legal(s, i, v);
                        lemma_illegal_unsolvable(u);
                        assert(solutions_of(u).contains(t));
                    }
                }
            }
        }
    }
}

/// The digits, ascending.
pub open spec fn all_digits() -> Seq<int> {
    seq![1, 2, 3, 4, 5, 6, 7, 8, 9]
}

/// The digit that a grid completed from a stream at `state` opens with: the
/// first of those that the stream shuffles first.
pub open spec fn opening_digit(state: u64) -> int {
    shuffled(all_digits(), 9, state).0[0]
}

proof fn lemma_empty_candidates(i: int)
    ensures
        candidates(empty_board(), i) == all_digits(),
{
    reveal_with_fuel(candidates_up_to, 10);
    assert(candidates(empty_board(), i) =~= all_digits());
}

/// The search over an empty board begins with the first cell, and the first
/// digit it tries there stays.
pub proof fn lemma_opening_digit(state: u64)
    ensures
        first_solution(empty_board(), Some(state)).0 is Some,
        (first_solution(empty_board(), Some(state)).0->0)[0] == opening_digit(state),
{
    let s = empty_board();
    lemma_empty_solvable();
    assert(s[0] == 0 && !full(s));
    assert forall|j: int| candidates(s, j) == all_digits() by {
        lemma_empty_candidates(j);
    }
    assert(is_choice(s, 0));
    lemma_choice(s, 0);
    let (order, after) = search_order(candidates(s, 0), Some(state));
    lemma_candidates_in_order(s, 0, Some(state));
    lemma_shuffle_permutes(all_digits(), 9, state);
    let v = order[0];
    assert(v == opening_digit(state));
    assert(1 <= v <= 9 && fits(s, 0, v));
    let u = s.update(0, v);
    lemma_place_legal(s, 0, v);
    lemma_first_solution(u, after);
    lemma_first_cell_free(v);
    let t = choose|t: Seq<int>| #[trigger] is_solution(t, u);
    assert(solutions_of(u).contains(t));
    let found = first_solution(u, after).0;
    assert(found is Some);
    assert(u[0] == v);
    assert(first_solution(s, Some(state)) == try_digits(s, 0, order, after));
    assert(try_digits(s, 0, order, after).0 == found);
}

/// A solution of `s` is one of `s` with the solution's digit added.
spec fn extends_at(t: Seq<int>, s: Seq<int>, i: int) -> bool {
    is_solution(t, s.update(i, t[i]))
}

proof fn lemma_try_digits(s: Seq<int>, i: int, order: Seq<int>, stream: Option<u64>)
    requires
        is_board(s),
        legal(s),
        0 <= i < 81,
        s[i] == 0,
        forall|k: int|
            0 <= k < order.len() ==> fits(s, i, #[trigger] order[k]) && 1 <= order[k] <= 9,
    ensures
        try_digits(s, i, order, stream).0 is Some ==> is_solution(
            try_digits(s, i, order, stream).0->0,
            s,
        ),
        try_digits(s, i, order, stream).0 is None ==> forall|v: int| #[trigger]
            order.contains(v) ==> solutions_of(s.update(i, v)) =~= Set::<Seq<int>>::empty(),
        stream is Some <==> try_digits(s, i, order, stream).1 is Some,
    decreases empties(s), 0int, order.len(),
{
    if order.len() > 0 {
        let v = order[0];
        let u = s.update(i, v);
        assert(fits(s, i, v));
        lemma_place_legal(s, i, v);
        lemma_place_shrinks(s, i, v);
        lemma_first_solution(u, stream);
        let (found, after) = first_solution(u, stream);
        if found is Some {
            let t = found->0;
            assert forall|k: int| 0 <= k < 81 && #[trigger] s[k] != 0 implies t[k] == s[k] by {
                assert(u[k] == s[k]);
            }
        } else {
            let rest = order.drop_first();
            lemma_try_digits(s, i, rest, after);
            assert forall|w: int| #[trigger] order.contains(w) && try_digits(
                s,
                i,
                order,
                stream,
            ).0 is None implies solutions_of(s.update(i, w)) =~= Set::<Seq<int>>::empty() by {
                let k = choose|k: int| 0 <= k < order.len() && order[k] == w;
                if k > 0 {
                    assert(rest[k - 1] == w);
                    assert(rest.contains(w));
                }
            }
        }
    }
}

/// One solution of `grid`, or `None` if it has none.
///
/// Which one is of no account when there are several: it is the one the search
/// comes to first. Ask [`solutions`] first if that matters.
pub fn solve(grid: &Grid) -> (solution: Option<Grid>)
    requires
        grid.wf(),
    ensures
        solution is Some <==> solutions_of(grid@).len() > 0,
        solution is Some ==> solution->0.wf() && is_solution(solution->0@, grid@),
        solution is Some ==> Some(solution->0@) == first_solution(grid@, None).0,
{
    proof {
        lemma_grid_is_board(*grid);
        lemma_solutions_finite(grid@);
    }
    match Search::load(grid) {
        None => {
            proof {
                lemma_illegal_unsolvable(grid@);
            }
            None
        },
        Some(mut search) => {
            let mut stream: Option<Rng> = None;
            proof {
                lemma_first_solution(grid@, None);
            }
            if search.fill(&mut stream) {
                let found = search.grid();
                proof {
                    assert(solutions_of(grid@).contains(found@));
                    assert(solutions_of(grid@).len() > 0);
                }
                Some(found)
            } else {
                None
            }
        },
    }
}

/// A full, legal grid drawn from `rng`.
///
/// Always succeeds: an empty grid is solvable, and randomising the order
/// candidates are tried in cannot make it unsolvable, only slower to find.
pub fn complete(rng: &mut Rng) -> (grid: Grid)
    ensures
        grid.wf(),
        solved(grid@),
        (Some(grid@), Some(final(rng)@)) == first_solution(empty_board(), Some(old(rng)@)),
{
    let empty = Grid::empty();
    proof {
        lemma_empty_solvable();
        lemma_first_solution(empty_board(), Some(rng@));
        assert(solutions_of(empty_board()).contains(
            crate::sudoku_rules::model::pattern_board(),
        ));
    }
    let mut stream = Some(*rng);
    match Search::load(&empty) {
        Some(mut search) => {
            let filled = search.fill(&mut stream);
            if let Some(after) = stream {
                *rng = after;
            }
            search.grid()
        },
        None => empty,
    }
}

/// What a count of the solutions of `s` that goes no further than `limit`
/// makes of `found`.
pub open spec fn counted(found: int, limit: int, s: Seq<int>) -> int {
    let total = found + solutions_of(s).len();
    if found >= limit {
        found
    } else if total >= limit {
        limit
    } else {
        total
    }
}

/// How many solutions `grid` has, counting no further than `limit`.
///
/// `limit` is the whole point of the signature: uniqueness is
/// `solutions(grid, 2) == 1`, and stopping at two is what makes it cheap.
pub fn solutions(grid: &Grid, limit: usize) -> (found: usize)
    requires
        grid.wf(),
    ensures
        found == (if solutions_of(grid@).len() < limit {
            solutions_of(grid@).len() as int
        } else {
            limit as int
        }),
{
    match Search::load(grid) {
        // An already-invalid grid has no solutions, and the search cannot be
        // trusted to discover that: it only ever checks the cells it fills.
        None => {
            proof {
                lemma_grid_is_board(*grid);
                lemma_illegal_unsolvable(grid@);
            }
            0
        },
        Some(mut search) => {
            let mut found: usize = 0;
            search.count(limit, &mut found);
            found
        },
    }
}

/// Whether `grid` has exactly one solution.
pub fn is_unique(grid: &Grid) -> (one: bool)
    requires
        grid.wf(),
    ensures
        one == unique(grid@),
{
    solutions(grid, 2) == 1
}

} // verus!
