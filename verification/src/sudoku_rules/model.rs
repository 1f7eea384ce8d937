//! The mathematics the rules are stated in.
//!
//! A grid is a sequence of eighty-one numbers in reading order, `0` for an
//! empty cell and `1..=9` for a digit. Everything the library promises about
//! legality, solutions and uniqueness is a statement about such sequences.

use vstd::prelude::*;

verus! {

/// The row of the cell at `index`, counting down from the top.
pub open spec fn row_of(index: int) -> int {
    index / 9
}

/// The column of the cell at `index`, counting across from the left.
pub open spec fn column_of(index: int) -> int {
    index % 9
}

/// The 3x3 block of the cell at `index`, in reading order.
pub open spec fn block_of(index: int) -> int {
    (index / 27) * 3 + (index % 9) / 3
}

/// Whether two different cells share a row, a column or a block.
pub open spec fn are_peers(i: int, j: int) -> bool {
    &&& i != j
    &&& row_of(i) == row_of(j) || column_of(i) == column_of(j) || block_of(i) == block_of(j)
}

/// Where the cell in row `r` and column `c` stands.
pub proof fn lemma_coordinates(r: int, c: int)
    requires
        0 <= r < 9,
        0 <= c < 9,
    ensures
        0 <= r * 9 + c < 81,
        row_of(r * 9 + c) == r,
        column_of(r * 9 + c) == c,
        block_of(r * 9 + c) == r / 3 * 3 + c / 3,
{
    assert((r * 9 + c) / 27 == r / 3);
    assert((r * 9 + c) % 9 == c);
}

/// Every unit a cell belongs to is one of nine.
pub proof fn lemma_units(i: int)
    requires
        0 <= i < 81,
    ensures
        0 <= row_of(i) < 9,
        0 <= column_of(i) < 9,
        0 <= block_of(i) < 9,
        i == row_of(i) * 9 + column_of(i),
{
}

/// Eighty-one numbers, each empty or a digit.
pub open spec fn is_board(s: Seq<int>) -> bool {
    &&& s.len() == 81
    &&& forall|i: int| 0 <= i < 81 ==> 0 <= #[trigger] s[i] <= 9
}

/// The board without a single digit.
pub open spec fn empty_board() -> Seq<int> {
    Seq::new(81, |i: int| 0int)
}

/// No two peers hold the same digit.
pub open spec fn legal(s: Seq<int>) -> bool {
    forall|i: int, j: int|
        0 <= i < 81 && 0 <= j < 81 && #[trigger] are_peers(i, j) && s[i] != 0 ==> s[i] != s[j]
}

/// Every cell holds a digit.
pub open spec fn full(s: Seq<int>) -> bool {
    forall|i: int| 0 <= i < 81 ==> #[trigger] s[i] != 0
}

/// A finished, legal board.
pub open spec fn solved(s: Seq<int>) -> bool {
    full(s) && legal(s)
}

/// Every digit of `s` stands at the same place in `t`.
pub open spec fn extends(t: Seq<int>, s: Seq<int>) -> bool {
    forall|i: int| 0 <= i < 81 && #[trigger] s[i] != 0 ==> t[i] == s[i]
}

/// `t` finishes `s` legally.
pub open spec fn is_solution(t: Seq<int>, s: Seq<int>) -> bool {
    is_board(t) && solved(t) && extends(t, s)
}

/// Every board that finishes `s` legally.
pub open spec fn solutions_of(s: Seq<int>) -> Set<Seq<int>> {
    Set::new(|t: Seq<int>| is_solution(t, s))
}

/// `s` has exactly one solution.
pub open spec fn unique(s: Seq<int>) -> bool {
    solutions_of(s).len() == 1
}

/// No peer of cell `i` holds `v`.
pub open spec fn fits(s: Seq<int>, i: int, v: int) -> bool {
    forall|j: int| 0 <= j < 81 && #[trigger] are_peers(i, j) ==> s[j] != v
}

/// How many of the first `n` cells hold a digit.
pub open spec fn filled_before(s: Seq<int>, n: int) -> nat
    decreases n,
{
    if n <= 0 {
        0
    } else {
        filled_before(s, n - 1) + if s[n - 1] != 0 {
            1nat
        } else {
            0nat
        }
    }
}

/// How many cells hold a digit.
pub open spec fn filled(s: Seq<int>) -> nat {
    filled_before(s, 81)
}

/// How many cells hold no digit.
pub open spec fn empties(s: Seq<int>) -> nat {
    (81 - filled(s)) as nat
}

pub proof fn lemma_filled_bound(s: Seq<int>, n: int)
    requires
        0 <= n,
    ensures
        filled_before(s, n) <= n,
    decreases n,
{
    if n > 0 {
        lemma_filled_bound(s, n - 1);
    }
}

/// Changing one cell changes the count of filled cells by that cell alone.
pub proof fn lemma_filled_update(s: Seq<int>, n: int, i: int, v: int)
    requires
        0 <= n <= s.len(),
        0 <= i < s.len(),
    ensures
        i >= n ==> filled_before(s.update(i, v), n) == filled_before(s, n),
        i < n ==> filled_before(s.update(i, v), n) == filled_before(s, n) + (if v != 0 {
            1int
        } else {
            0int
        }) - (if s[i] != 0 {
            1int
        } else {
            0int
        }),
    decreases n,
{
    if n > 0 {
        lemma_filled_update(s, n - 1, i, v);
    }
}

/// A board is full exactly where every cell is filled.
pub proof fn lemma_filled_all(s: Seq<int>, n: int)
    requires
        0 <= n <= 81,
    ensures
        filled_before(s, n) == n <==> (forall|i: int| 0 <= i < n ==> #[trigger] s[i] != 0),
    decreases n,
{
    if n > 0 {
        lemma_filled_all(s, n - 1);
        lemma_filled_bound(s, n - 1);
        if filled_before(s, n) == n {
            assert(s[n - 1] != 0);
            assert forall|i: int| 0 <= i < n implies #[trigger] s[i] != 0 by {
                if i < n - 1 {
                }
            }
        }
        if forall|i: int| 0 <= i < n ==> #[trigger] s[i] != 0 {
            assert(s[n - 1] != 0);
        }
    }
}

/// Putting a digit in an empty cell leaves one empty cell fewer.
pub proof fn lemma_place_shrinks(s: Seq<int>, i: int, v: int)
    requires
        s.len() == 81,
        0 <= i < 81,
        s[i] == 0,
        v != 0,
    ensures
        empties(s.update(i, v)) + 1 == empties(s),
{
    lemma_filled_update(s, 81, i, v);
    lemma_filled_bound(s.update(i, v), 81);
}

pub proof fn lemma_peers_symmetric(i: int, j: int)
    ensures
        are_peers(i, j) == are_peers(j, i),
{
}

/// A digit may be added to a legal board exactly where no peer holds it.
pub proof fn lemma_place_legal(s: Seq<int>, i: int, v: int)
    requires
        s.len() == 81,
        legal(s),
        0 <= i < 81,
        s[i] == 0,
        v != 0,
    ensures
        fits(s, i, v) <==> legal(s.update(i, v)),
{
    let t = s.update(i, v);
    if fits(s, i, v) {
        assert forall|a: int, b: int|
            0 <= a < 81 && 0 <= b < 81 && #[trigger] are_peers(a, b) && t[a] != 0 implies t[a]
            != t[b] by {
            lemma_peers_symmetric(a, b);
            if a == i {
                assert(are_peers(i, b));
            } else if b == i {
                assert(are_peers(i, a));
            }
        }
    }
    if legal(t) {
        assert forall|j: int| 0 <= j < 81 && #[trigger] are_peers(i, j) implies s[j] != v by {
            assert(t[i] != t[j]);
        }
    }
}

/// Emptying a cell of a legal board leaves it legal.
pub proof fn lemma_lift_legal(s: Seq<int>, i: int)
    requires
        s.len() == 81,
        legal(s),
        0 <= i < 81,
    ensures
        legal(s.update(i, 0)),
{
    let t = s.update(i, 0);
    assert forall|a: int, b: int|
        0 <= a < 81 && 0 <= b < 81 && #[trigger] are_peers(a, b) && t[a] != 0 implies t[a]
        != t[b] by {
        assert(s[a] != s[b]);
    }
}

/// The solutions of `s` whose digit in cell `i` is at most `v`.
pub open spec fn solutions_up_to(s: Seq<int>, i: int, v: int) -> Set<Seq<int>> {
    Set::new(|t: Seq<int>| is_solution(t, s) && t[i] <= v)
}

/// Trying the digits of one empty cell in turn meets every solution once.
pub proof fn lemma_split_by_digit(s: Seq<int>, i: int, v: int)
    requires
        is_board(s),
        0 <= i < 81,
        s[i] == 0,
        1 <= v <= 9,
        solutions_up_to(s, i, v - 1).finite(),
        solutions_of(s.update(i, v)).finite(),
    ensures
        solutions_up_to(s, i, v).finite(),
        solutions_up_to(s, i, v).len() == solutions_up_to(s, i, v - 1).len() + solutions_of(
            s.update(i, v),
        ).len(),
{
    let low = solutions_up_to(s, i, v - 1);
    let here = solutions_of(s.update(i, v));
    assert forall|t: Seq<int>| here.contains(t) implies is_solution(t, s) && t[i] == v by {
        let u = s.update(i, v);
        assert(u[i] != 0);
        assert forall|k: int| 0 <= k < 81 && #[trigger] s[k] != 0 implies t[k] == s[k] by {
            assert(u[k] == s[k]);
        }
    }
    assert forall|t: Seq<int>| is_solution(t, s) && t[i] == v implies here.contains(t) by {
        let u = s.update(i, v);
        assert forall|k: int| 0 <= k < 81 && #[trigger] u[k] != 0 implies t[k] == u[k] by {
            if k != i {
                assert(s[k] != 0);
            }
        }
    }
    assert(solutions_up_to(s, i, v) =~= low.union(here));
    assert(low.disjoint(here));
    vstd::set_lib::lemma_set_disjoint_lens(low, here);
}

/// No solution has an empty cell, and none goes past nine.
pub proof fn lemma_split_bounds(s: Seq<int>, i: int)
    requires
        0 <= i < 81,
    ensures
        solutions_up_to(s, i, 0) =~= Set::<Seq<int>>::empty(),
        solutions_up_to(s, i, 9) =~= solutions_of(s),
{
    assert forall|t: Seq<int>| !solutions_up_to(s, i, 0).contains(t) by {
        if is_solution(t, s) {
            assert(t[i] != 0);
            assert(0 <= t[i]);
        }
    }
    assert forall|t: Seq<int>| solutions_of(s).contains(t) implies solutions_up_to(
        s,
        i,
        9,
    ).contains(t) by {
        assert(t[i] <= 9);
    }
}

/// A complete board has itself for a solution where it is legal, and none
/// otherwise.
pub proof fn lemma_complete_solutions(s: Seq<int>)
    requires
        is_board(s),
        full(s),
    ensures
        solutions_of(s).finite(),
        legal(s) ==> solutions_of(s) =~= set![s],
        legal(s) ==> solutions_of(s).len() == 1,
        !legal(s) ==> solutions_of(s) =~= Set::<Seq<int>>::empty(),
{
    assert forall|t: Seq<int>| is_solution(t, s) implies t == s by {
        assert forall|i: int| 0 <= i < 81 implies t[i] == s[i] by {
            assert(s[i] != 0);
        }
        assert(t =~= s);
    }
    if legal(s) {
        assert(is_solution(s, s));
        assert(solutions_of(s) =~= set![s]);
    } else {
        assert(solutions_of(s) =~= Set::<Seq<int>>::empty());
    }
}

/// A board has finitely many solutions.
pub proof fn lemma_solutions_finite(s: Seq<int>)
    requires
        is_board(s),
    ensures
        solutions_of(s).finite(),
    decreases empties(s),
{
    lemma_filled_all(s, 81);
    if full(s) {
        lemma_complete_solutions(s);
    } else {
        let i = choose|i: int| 0 <= i < 81 && #[trigger] s[i] == 0;
        lemma_split_bounds(s, i);
        lemma_up_to_finite(s, i, 9);
    }
}

proof fn lemma_up_to_finite(s: Seq<int>, i: int, v: int)
    requires
        is_board(s),
        0 <= i < 81,
        s[i] == 0,
        0 <= v <= 9,
    ensures
        solutions_up_to(s, i, v).finite(),
    decreases empties(s), v + 1,
{
    lemma_split_bounds(s, i);
    if v > 0 {
        lemma_up_to_finite(s, i, v - 1);
        lemma_place_shrinks(s, i, v);
        lemma_solutions_finite(s.update(i, v));
        lemma_split_by_digit(s, i, v);
    }
}

/// A board that breaks a constraint has no solution.
pub proof fn lemma_illegal_unsolvable(s: Seq<int>)
    requires
        is_board(s),
        !legal(s),
    ensures
        solutions_of(s) =~= Set::<Seq<int>>::empty(),
{
    let (i, j) = choose|i: int, j: int|
        0 <= i < 81 && 0 <= j < 81 && #[trigger] are_peers(i, j) && s[i] != 0 && s[i] == s[j];
    assert forall|t: Seq<int>| !is_solution(t, s) by {
        if is_solution(t, s) {
            assert(t[i] == s[i]);
            assert(t[j] == s[j]);
        }
    }
}

/// Taking clues away never loses a solution.
pub proof fn lemma_fewer_clues(t: Seq<int>, s: Seq<int>)
    requires
        extends(t, s),
    ensures
        solutions_of(t).subset_of(solutions_of(s)),
{
    assert forall|u: Seq<int>| is_solution(u, t) implies is_solution(u, s) by {
        assert forall|i: int| 0 <= i < 81 && #[trigger] s[i] != 0 implies u[i] == s[i] by {
            assert(t[i] == s[i]);
        }
    }
}

/// Every row of a finished board holds every digit.
proof fn lemma_row_holds_all(s: Seq<int>, r: int, v: int) -> (c: int)
    requires
        is_board(s),
        solved(s),
        0 <= r < 9,
        1 <= v <= 9,
    ensures
        0 <= c < 9,
        s[r * 9 + c] == v,
{
    let row = Seq::new(9, |c: int| s[r * 9 + c]);
    assert forall|a: int, b: int| 0 <= a < 9 && 0 <= b < 9 && a != b implies row[a] != row[b] by {
        lemma_coordinates(r, a);
        lemma_coordinates(r, b);
        assert(are_peers(r * 9 + a, r * 9 + b));
        assert(s[r * 9 + a] != 0);
    }
    row.unique_seq_to_set();
    let digits = vstd::set_lib::set_int_range(1, 10);
    vstd::set_lib::lemma_int_range(1, 10);
    assert(row.to_set().subset_of(digits)) by {
        assert forall|w: int| row.to_set().contains(w) implies digits.contains(w) by {
            let c = choose|c: int| 0 <= c < 9 && row[c] == w;
            lemma_coordinates(r, c);
            assert(s[r * 9 + c] != 0);
            assert(0 <= s[r * 9 + c] <= 9);
        }
    }
    vstd::set_lib::lemma_subset_equality(row.to_set(), digits);
    assert(row.to_set().contains(v));
    choose|c: int| 0 <= c < 9 && row[c] == v
}

/// A finished board with one clue taken away still has exactly one solution.
pub proof fn lemma_one_hole_unique(s: Seq<int>, i: int)
    requires
        is_board(s),
        solved(s),
        0 <= i < 81,
    ensures
        unique(s.update(i, 0)),
{
    let holed = s.update(i, 0);
    assert forall|t: Seq<int>| is_solution(t, holed) implies t == s by {
        assert forall|j: int| 0 <= j < 81 && j != i implies t[j] == s[j] by {
            assert(s[j] != 0);
            assert(holed[j] != 0);
        }
        if t[i] != s[i] {
            lemma_units(i);
            let r = row_of(i);
            assert(t[i] != 0 && 0 <= t[i] <= 9);
            let c = lemma_row_holds_all(s, r, t[i]);
            lemma_coordinates(r, c);
            assert(are_peers(i, r * 9 + c));
            assert(t[i] != t[r * 9 + c]);
        }
        assert(t =~= s);
    }
    assert(is_solution(s, holed)) by {
        assert forall|j: int| 0 <= j < 81 && #[trigger] holed[j] != 0 implies s[j] == holed[j] by {
        }
    }
    assert(solutions_of(holed) =~= set![s]);
}

/// The digit a particular finished grid has in row `3 * a + b`, column
/// `3 * p + q`.
pub open spec fn pattern(index: int) -> int {
    ((index / 9 % 3) * 3 + index / 27 + index % 9) % 9 + 1
}

/// One finished grid, to show that the empty board can be finished.
pub open spec fn pattern_board() -> Seq<int> {
    Seq::new(81, |i: int| pattern(i))
}

proof fn lemma_pattern_at(i: int) -> (parts: (int, int, int, int))
    requires
        0 <= i < 81,
    ensures
        i == 27 * parts.0 + 9 * parts.1 + 3 * parts.2 + parts.3,
        0 <= parts.0 < 3,
        0 <= parts.1 < 3,
        0 <= parts.2 < 3,
        0 <= parts.3 < 3,
        pattern(i) == (3 * parts.1 + parts.0 + 3 * parts.2 + parts.3) % 9 + 1,
        row_of(i) == 3 * parts.0 + parts.1,
        column_of(i) == 3 * parts.2 + parts.3,
        block_of(i) == 3 * parts.0 + parts.2,
{
    let (row, column) = (i / 9, i % 9);
    assert(i == 9 * row + column);
    let (a, b, p, q) = (row / 3, row % 3, column / 3, column % 3);
    assert(i / 27 == a);
    (a, b, p, q)
}

proof fn lemma_pattern_distinct(
    a: int,
    b: int,
    p: int,
    q: int,
    c: int,
    d: int,
    r: int,
    t: int,
)
    requires
        0 <= a < 3 && 0 <= b < 3 && 0 <= p < 3 && 0 <= q < 3,
        0 <= c < 3 && 0 <= d < 3 && 0 <= r < 3 && 0 <= t < 3,
        !(a == c && b == d && p == r && q == t),
        (a == c && b == d) || (p == r && q == t) || (a == c && p == r),
    ensures
        (3 * b + a + 3 * p + q) % 9 != (3 * d + c + 3 * r + t) % 9,
{
    let x = 3 * b + a + 3 * p + q;
    let y = 3 * d + c + 3 * r + t;
    assert(x % 9 == if x < 9 { x } else { x - 9 });
    assert(y % 9 == if y < 9 { y } else { y - 9 });
}

proof fn lemma_pattern_peers(i: int, j: int)
    requires
        0 <= i < 81,
        0 <= j < 81,
        are_peers(i, j),
    ensures
        pattern(i) != pattern(j),
{
    let (a, b, p, q) = lemma_pattern_at(i);
    let (c, d, r, t) = lemma_pattern_at(j);
    lemma_pattern_distinct(a, b, p, q, c, d, r, t);
}

/// The empty board has a solution.
pub proof fn lemma_empty_solvable()
    ensures
        is_solution(pattern_board(), empty_board()),
        is_board(empty_board()),
        legal(empty_board()),
{
    let t = pattern_board();
    assert forall|i: int, j: int|
        0 <= i < 81 && 0 <= j < 81 && #[trigger] are_peers(i, j) && t[i] != 0 implies t[i]
        != t[j] by {
        lemma_pattern_peers(i, j);
    }
}

/// `v` with the digits `a` and `b` in each other's place.
spec fn relabelled(v: int, a: int, b: int) -> int {
    if v == a {
        b
    } else if v == b {
        a
    } else {
        v
    }
}

/// The first cell can hold any digit: there is a finished grid with it there.
pub proof fn lemma_first_cell_free(v: int)
    requires
        1 <= v <= 9,
    ensures
        exists|t: Seq<int>| #[trigger] is_solution(t, empty_board().update(0, v)),
{
    let t = Seq::new(81, |i: int| relabelled(pattern(i), pattern(0), v));
    assert forall|i: int, j: int|
        0 <= i < 81 && 0 <= j < 81 && #[trigger] are_peers(i, j) && t[i] != 0 implies t[i]
        != t[j] by {
        lemma_pattern_peers(i, j);
    }
    assert(is_solution(t, empty_board().update(0, v)));
}

} // verus!
