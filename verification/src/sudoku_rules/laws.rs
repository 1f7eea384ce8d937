//! What the rules promise, cell by cell.
//!
//! Each law speaks of rows, columns and blocks of a nine by nine board, of the
//! digits on it, and of the boards that finish it.

use vstd::prelude::*;
use vstd::string::*;

use crate::sudoku_rules::error::MoveError;
use crate::sudoku_rules::game::{
    clear_verdict, entry_verdict, first_conflict, is_first_conflict, renewed, rewritten, GameState,
};
use crate::sudoku_rules::generate::{
    carved, drawn, is_first_mismatch, law_generated_puzzle, law_generated_puzzle_is_unfinished,
    lemma_first_mismatch, reading_order, Difficulty,
};
use crate::sudoku_rules::grid::{board_of_line, is_line, line_of};
use crate::sudoku_rules::model::{
    are_peers, empties, empty_board, extends, filled, filled_before, fits, full, is_board, legal,
    lemma_place_legal, solutions_of, solved, unique,
};
use crate::sudoku_rules::rng::{
    advance, exchanged, lemma_scale_below, lemma_shuffle_permutes, mix, scale, shuffled,
};
use crate::sudoku_rules::save::{is_level, not_cells_message, rebuild_failure, SavedPuzzle};
use crate::sudoku_rules::solve::{
    candidates, candidates_up_to, choice, first_solution, is_choice, lemma_candidates,
    lemma_candidates_in_order, lemma_choice_exists, lemma_first_solution, search_order, try_digits,
};
use crate::sudoku_rules::types::cell_name;
use crate::text::{decimal, digit_char};

verus! {

/// The digit in a row and a column of a board, each counted from nought.
pub open spec fn at(s: Seq<int>, row: int, column: int) -> int {
    s[9 * row + column]
}

/// Two different places of the board that share a row, a column or a block of
/// three by three.
pub open spec fn rule_each_other_out(r: int, c: int, p: int, q: int) -> bool {
    &&& !(r == p && c == q)
    &&& r == p || c == q || (r / 3 == p / 3 && c / 3 == q / 3)
}

proof fn lemma_place(r: int, c: int)
    requires
        0 <= r < 9,
        0 <= c < 9,
    ensures
        0 <= 9 * r + c < 81,
        (9 * r + c) / 9 == r,
        (9 * r + c) % 9 == c,
        (9 * r + c) / 27 == r / 3,
{
}

proof fn lemma_peers(r: int, c: int, p: int, q: int)
    requires
        0 <= r < 9 && 0 <= c < 9 && 0 <= p < 9 && 0 <= q < 9,
    ensures
        are_peers(9 * r + c, 9 * p + q) <==> rule_each_other_out(r, c, p, q),
{
    lemma_place(r, c);
    lemma_place(p, q);
}

/// A board is legal exactly where no row, no column and no block of three by
/// three holds a digit twice.
pub proof fn law_legal_is_no_digit_twice(s: Seq<int>)
    requires
        is_board(s),
    ensures
        legal(s) <==> forall|r: int, c: int, p: int, q: int|
            0 <= r < 9 && 0 <= c < 9 && 0 <= p < 9 && 0 <= q < 9 && #[trigger] rule_each_other_out(
                r,
                c,
                p,
                q,
            ) && at(s, r, c) != 0 ==> at(s, r, c) != at(s, p, q),
        full(s) <==> forall|r: int, c: int|
            0 <= r < 9 && 0 <= c < 9 ==> #[trigger] at(s, r, c) != 0,
        solved(s) <==> full(s) && legal(s),
{
    let spread = forall|r: int, c: int, p: int, q: int|
        0 <= r < 9 && 0 <= c < 9 && 0 <= p < 9 && 0 <= q < 9 && #[trigger] rule_each_other_out(
            r,
            c,
            p,
            q,
        ) && at(s, r, c) != 0 ==> at(s, r, c) != at(s, p, q);
    if legal(s) {
        assert forall|r: int, c: int, p: int, q: int|
            0 <= r < 9 && 0 <= c < 9 && 0 <= p < 9 && 0 <= q < 9 && #[trigger] rule_each_other_out(
                r,
                c,
                p,
                q,
            ) && at(s, r, c) != 0 implies at(s, r, c) != at(s, p, q) by {
            lemma_peers(r, c, p, q);
            assert(are_peers(9 * r + c, 9 * p + q));
        }
    }
    if spread {
        assert forall|i: int, j: int|
            0 <= i < 81 && 0 <= j < 81 && #[trigger] are_peers(i, j) && s[i] != 0 implies s[i]
            != s[j] by {
            lemma_peers(i / 9, i % 9, j / 9, j % 9);
            assert(rule_each_other_out(i / 9, i % 9, j / 9, j % 9));
            assert(at(s, i / 9, i % 9) == s[i] && at(s, j / 9, j % 9) == s[j]);
        }
    }
    if full(s) {
        assert forall|r: int, c: int| 0 <= r < 9 && 0 <= c < 9 implies #[trigger] at(s, r, c)
            != 0 by {
            assert(s[9 * r + c] != 0);
        }
    }
    if (forall|r: int, c: int| 0 <= r < 9 && 0 <= c < 9 ==> #[trigger] at(s, r, c) != 0) {
        assert forall|i: int| 0 <= i < 81 implies #[trigger] s[i] != 0 by {
            assert(at(s, i / 9, i % 9) == s[i]);
        }
    }
}

/// A board finishes another exactly where it is full and legal and keeps every
/// digit that is there; a board is unique where exactly one finishes it.
pub proof fn law_solutions_finish_the_board(t: Seq<int>, s: Seq<int>)
    requires
        is_board(s),
        is_board(t),
    ensures
        solutions_of(s).contains(t) <==> full(t) && legal(t) && forall|r: int, c: int|
            0 <= r < 9 && 0 <= c < 9 && #[trigger] at(s, r, c) != 0 ==> at(t, r, c) == at(s, r, c),
        unique(s) <==> solutions_of(s).len() == 1,
{
    if (forall|r: int, c: int|
        0 <= r < 9 && 0 <= c < 9 && #[trigger] at(s, r, c) != 0 ==> at(t, r, c) == at(s, r, c)) {
        assert forall|i: int| 0 <= i < 81 && #[trigger] s[i] != 0 implies t[i] == s[i] by {
            assert(at(s, i / 9, i % 9) == s[i] && at(t, i / 9, i % 9) == t[i]);
        }
    }
    if extends(t, s) {
        assert forall|r: int, c: int|
            0 <= r < 9 && 0 <= c < 9 && #[trigger] at(s, r, c) != 0 implies at(t, r, c) == at(
            s,
            r,
            c,
        ) by {
            assert(s[9 * r + c] != 0);
        }
    }
}

/// The places that hold a digit.
pub open spec fn held(s: Seq<int>, n: int) -> Set<int> {
    Set::new(|i: int| 0 <= i < n && s[i] != 0)
}

/// The count of digits is the number of places that hold one, and the rest are
/// empty.
pub proof fn law_counts_are_counts(s: Seq<int>)
    requires
        is_board(s),
    ensures
        filled(s) == held(s, 81).len(),
        empties(s) == 81 - held(s, 81).len(),
{
    lemma_held(s, 81);
    crate::sudoku_rules::model::lemma_filled_bound(s, 81);
}

proof fn lemma_held(s: Seq<int>, n: int)
    requires
        0 <= n <= 81,
    ensures
        held(s, n).finite(),
        held(s, n).len() == filled_before(s, n),
    decreases n,
{
    if n == 0 {
        assert(held(s, 0) =~= Set::<int>::empty());
    } else {
        lemma_held(s, n - 1);
        if s[n - 1] != 0 {
            assert(held(s, n) =~= held(s, n - 1).insert(n - 1));
        } else {
            assert(held(s, n) =~= held(s, n - 1));
        }
    }
}

/// A digit can be entered in every cell of an unfinished puzzle that is no clue
/// and whose row, column and block have it nowhere else, whatever the cell holds
/// already; it is refused for a clue, for a finished puzzle, and for a digit
/// that is there already, and for nothing else.
pub proof fn law_any_legal_digit_can_be_entered(game: GameState, r: int, c: int, v: int)
    requires
        is_board(game.position),
        game.task.wf(),
        0 <= r < 9,
        0 <= c < 9,
        1 <= v <= 9,
    ensures
        ({
            let verdict = entry_verdict(game, 9 * r + c, v);
            let clue = at(game.task.clues(), r, c) != 0;
            let done = solved(game.position);
            let taken = exists|p: int, q: int|
                0 <= p < 9 && 0 <= q < 9 && #[trigger] rule_each_other_out(r, c, p, q) && at(
                    game.position,
                    p,
                    q,
                ) == v;
            let there = at(game.position, r, c) == v;
            &&& verdict == Err::<(), MoveError>(MoveError::Solved) <==> done
            &&& verdict == Err::<(), MoveError>(MoveError::Given) <==> !done && clue
            &&& verdict is Ok <==> !done && !clue && (there || !taken)
            &&& verdict is Err && !done && !clue ==> verdict->Err_0 is Conflict
        }),
{
    let i = 9 * r + c;
    lemma_place(r, c);
    if fits(game.position, i, v) {
        assert forall|p: int, q: int|
            0 <= p < 9 && 0 <= q < 9 && #[trigger] rule_each_other_out(r, c, p, q) implies at(
            game.position,
            p,
            q,
        ) != v by {
            lemma_peers(r, c, p, q);
            lemma_place(p, q);
            assert(are_peers(i, 9 * p + q));
        }
    } else {
        let j = choose|j: int| 0 <= j < 81 && #[trigger] are_peers(i, j) && game.position[j] == v;
        lemma_peers(r, c, j / 9, j % 9);
        assert(rule_each_other_out(r, c, j / 9, j % 9));
        assert(at(game.position, j / 9, j % 9) == v);
    }
}

/// A digit that is refused is refused for the first cell in reading order that
/// rules it out: that cell holds it, and none before it does.
pub proof fn law_a_conflict_names_the_first_in_the_way(game: GameState, r: int, c: int, v: int)
    requires
        is_board(game.position),
        0 <= r < 9,
        0 <= c < 9,
        1 <= v <= 9,
        entry_verdict(game, 9 * r + c, v) is Err,
        entry_verdict(game, 9 * r + c, v)->Err_0 is Conflict,
    ensures
        ({
            let with = entry_verdict(game, 9 * r + c, v)->Err_0->with;
            &&& with.wf()
            &&& rule_each_other_out(r, c, with@ / 9, with@ % 9)
            &&& game.position[with@] == v
            &&& forall|p: int, q: int|
                0 <= p < 9 && 0 <= q < 9 && 9 * p + q < with@ && #[trigger] rule_each_other_out(
                    r,
                    c,
                    p,
                    q,
                ) ==> at(game.position, p, q) != v
        }),
{
    let i = 9 * r + c;
    lemma_place(r, c);
    assert(!fits(game.position, i, v));
    let j = choose|j: int| 0 <= j < 81 && #[trigger] are_peers(i, j) && game.position[j] == v;
    lemma_least(game.position, i, v, j);
    let first = first_conflict(game.position, i, v);
    assert(is_first_conflict(game.position, i, v, first));
    lemma_peers(r, c, first / 9, first % 9);
    assert forall|p: int, q: int|
        0 <= p < 9 && 0 <= q < 9 && 9 * p + q < first && #[trigger] rule_each_other_out(
            r,
            c,
            p,
            q,
        ) implies at(game.position, p, q) != v by {
        lemma_peers(r, c, p, q);
        assert(are_peers(i, 9 * p + q));
    }
}

/// Where some peer holds a digit, one is the first.
proof fn lemma_least(s: Seq<int>, i: int, v: int, j: int)
    requires
        0 <= i < 81,
        0 <= j < 81,
        are_peers(i, j),
        s[j] == v,
    ensures
        exists|first: int| #[trigger] is_first_conflict(s, i, v, first),
    decreases j,
{
    if exists|k: int| 0 <= k < j && #[trigger] are_peers(i, k) && s[k] == v {
        let k = choose|k: int| 0 <= k < j && #[trigger] are_peers(i, k) && s[k] == v;
        lemma_least(s, i, v, k);
    } else {
        assert(is_first_conflict(s, i, v, j));
    }
}

/// Every cell of an unfinished puzzle that is no clue can be emptied; a clue and
/// a finished puzzle cannot.
pub proof fn law_any_entry_can_be_cleared(game: GameState, r: int, c: int)
    requires
        0 <= r < 9,
        0 <= c < 9,
    ensures
        ({
            let verdict = clear_verdict(game, 9 * r + c);
            let clue = at(game.task.clues(), r, c) != 0;
            &&& verdict is Ok <==> !solved(game.position) && !clue
            &&& verdict is Err ==> verdict->Err_0 == (if solved(game.position) {
                MoveError::Solved
            } else {
                MoveError::Given
            })
        }),
{
}

/// Writing in a cell puts the digit there and nowhere else, keeps the puzzle and
/// its stream, and counts as a change exactly where the cell held something
/// else. Writing over what was written leaves only the last.
pub proof fn law_writing_changes_one_cell(game: GameState, i: int, v: int, w: int, j: int)
    requires
        game.position.len() == 81,
        0 <= i < 81,
        0 <= j < 81,
    ensures
        rewritten(game, i, v).position.len() == 81,
        rewritten(game, i, v).position[i] == v,
        j != i ==> rewritten(game, i, v).position[j] == game.position[j],
        rewritten(game, i, v).task == game.task,
        rewritten(game, i, v).stream == game.stream,
        rewritten(game, i, v).changes == game.changes + (if game.position[i] == v {
            0int
        } else {
            1int
        }),
        rewritten(rewritten(game, i, v), i, w).position == rewritten(game, i, w).position,
{
    assert(rewritten(rewritten(game, i, v), i, w).position =~= rewritten(game, i, w).position);
}

/// A new puzzle is one at the level asked for, with nothing entered, something
/// to enter, and exactly one answer; asking for it counts as one change.
pub proof fn law_a_new_puzzle_is_fresh(game: GameState, next: GameState, level: Difficulty)
    requires
        renewed(game, next, level),
    ensures
        next.task.level() == level,
        next.position == next.task.clues(),
        !full(next.position),
        solutions_of(next.position) == set![next.task.answer()],
        unique(next.position),
        filled(next.position) >= level.target(),
        next.changes == game.changes + 1,
        next.stream == drawn(level, game.stream).state,
{
    law_generated_puzzle(level, game.stream);
    law_generated_puzzle_is_unfinished(level, game.stream);
}

/// The levels aim at 42, 34 and 28 clues, each fewer than the one before, and
/// go round.
pub proof fn law_levels_get_harder()
    ensures
        Difficulty::Easy.target() == 42,
        Difficulty::Medium.target() == 34,
        Difficulty::Hard.target() == 28,
        Difficulty::Easy.following() == Difficulty::Medium,
        Difficulty::Medium.following() == Difficulty::Hard,
        Difficulty::Hard.following() == Difficulty::Easy,
{
}

/// A board of which the first `k` cells of `order` are as carving leaves them,
/// and the others as they were.
pub open spec fn carved_so_far(
    whole: Seq<int>,
    left: Seq<int>,
    order: Seq<int>,
    k: int,
) -> Seq<int> {
    Seq::new(
        81,
        |i: int|
            if order.take(k).contains(i) {
                left[i]
            } else {
                whole[i]
            },
    )
}

/// Carving looks at every cell of its order once: the digit goes exactly where
/// there are still more than the target and what is left without it has one
/// solution only. Cells outside the order stay.
pub proof fn law_carving_takes_what_can_go(
    whole: Seq<int>,
    order: Seq<int>,
    target: nat,
    k: int,
)
    requires
        whole.len() == 81,
        order.no_duplicates(),
        forall|j: int| 0 <= j < order.len() ==> 0 <= #[trigger] order[j] < 81 && whole[order[j]] != 0,
        0 <= k < order.len(),
    ensures
        ({
            let left = carved(whole, order, target);
            let before = carved_so_far(whole, left, order, k);
            &&& left.len() == 81
            &&& left[order[k]] == 0 <==> filled(before) > target && unique(
                before.update(order[k], 0),
            )
            &&& left[order[k]] != 0 ==> left[order[k]] == whole[order[k]]
        }),
    decreases order.len(),
{
    let left = carved(whole, order, target);
    let before = carved_so_far(whole, left, order, k);
    if filled(whole) <= target {
        assert(before =~= whole);
    } else {
        let first = order[0];
        let trial = whole.update(first, 0);
        let next = if unique(trial) {
            trial
        } else {
            whole
        };
        let rest = order.drop_first();
        lemma_carved_elsewhere(next, rest, target, first);
        if k == 0 {
            assert(before =~= whole);
        } else {
            assert forall|j: int| 0 <= j < rest.len() implies 0 <= #[trigger] rest[j] < 81
                && next[rest[j]] != 0 by {
                assert(rest[j] == order[j + 1]);
            }
            assert(rest.no_duplicates()) by {
                assert forall|a: int, b: int|
                    0 <= a < rest.len() && 0 <= b < rest.len() && a != b implies rest[a]
                    != rest[b] by {
                    assert(rest[a] == order[a + 1] && rest[b] == order[b + 1]);
                }
            }
            law_carving_takes_what_can_go(next, rest, target, k - 1);
            let after = carved_so_far(next, left, rest, k - 1);
            assert(after =~= before) by {
                assert forall|i: int| 0 <= i < 81 implies after[i] == before[i] by {
                    if order.take(k).contains(i) {
                        let begun = order.take(k);
                        let a = choose|a: int| 0 <= a < begun.len() && begun[a] == i;
                        if a > 0 {
                            assert(rest.take(k - 1)[a - 1] == i);
                        }
                    }
                    if rest.take(k - 1).contains(i) {
                        let begun = rest.take(k - 1);
                        let a = choose|a: int| 0 <= a < begun.len() && begun[a] == i;
                        assert(order.take(k)[a + 1] == i);
                    }
                    assert(order.take(k)[0] == first);
                }
            }
        }
    }
}

proof fn lemma_carved_elsewhere(whole: Seq<int>, order: Seq<int>, target: nat, i: int)
    requires
        whole.len() == 81,
        0 <= i < 81,
        forall|j: int| 0 <= j < order.len() ==> 0 <= #[trigger] order[j] < 81 && order[j] != i,
    ensures
        carved(whole, order, target).len() == 81,
        carved(whole, order, target)[i] == whole[i],
    decreases order.len(),
{
    if order.len() > 0 && filled(whole) > target {
        let trial = whole.update(order[0], 0);
        let next = if unique(trial) {
            trial
        } else {
            whole
        };
        assert forall|j: int| 0 <= j < order.drop_first().len() implies 0
            <= #[trigger] order.drop_first()[j] < 81 && order.drop_first()[j] != i by {
            assert(order.drop_first()[j] == order[j + 1]);
        }
        lemma_carved_elsewhere(next, order.drop_first(), target, i);
    }
}

/// A puzzle is drawn in two strokes of one stream: the grid that the search
/// completes first, and the order of all eighty-one cells, shuffled by what the
/// stream gives next, in which clues are taken away.
pub proof fn law_a_puzzle_is_drawn_from_one_stream(level: Difficulty, seed: u64)
    ensures
        ({
            let puzzle = drawn(level, seed);
            let (found, stream) = first_solution(empty_board(), Some(seed));
            let cells = Seq::new(81, |i: int| i);
            let (order, after) = shuffled(cells, 81, stream->0);
            &&& Some(puzzle.solution) == found
            &&& puzzle.state == after
            &&& puzzle.givens == carved(puzzle.solution, order, level.target())
            &&& order.len() == 81
            &&& order.to_multiset() == cells.to_multiset()
        }),
{
    law_generated_puzzle(level, seed);
    crate::sudoku_rules::solve::lemma_opening_digit(seed);
    let stream = first_solution(empty_board(), Some(seed)).1;
    assert(reading_order() =~= Seq::new(81, |i: int| i));
    lemma_shuffle_permutes(reading_order(), 81, stream->0);
}

/// The digits tried in a cell are those that its row, column and block have
/// nowhere, in ascending order.
pub proof fn law_candidates_are_what_fits(s: Seq<int>, i: int)
    ensures
        forall|v: int| #[trigger]
            candidates(s, i).contains(v) <==> 1 <= v <= 9 && forall|j: int|
                0 <= j < 81 && #[trigger] are_peers(i, j) ==> s[j] != v,
        forall|a: int, b: int|
            0 <= a < b < candidates(s, i).len() ==> candidates(s, i)[a] < candidates(s, i)[b],
{
    lemma_candidates(s, i, 9);
    lemma_ascending(s, i, 9);
}

proof fn lemma_ascending(s: Seq<int>, i: int, n: int)
    requires
        0 <= n <= 9,
    ensures
        forall|a: int|
            0 <= a < candidates_up_to(s, i, n).len() ==> #[trigger] candidates_up_to(s, i, n)[a]
                <= n,
        forall|a: int, b: int|
            0 <= a < b < candidates_up_to(s, i, n).len() ==> candidates_up_to(s, i, n)[a]
                < candidates_up_to(s, i, n)[b],
    decreases n,
{
    if n > 0 {
        lemma_ascending(s, i, n - 1);
        let before = candidates_up_to(s, i, n - 1);
        let now = candidates_up_to(s, i, n);
        assert forall|a: int| 0 <= a < before.len() implies #[trigger] now[a] == before[a] by {}
        assert(now.len() > before.len() ==> now == before.push(n));
        assert forall|a: int| 0 <= a < now.len() implies #[trigger] now[a] <= n by {
            if a < before.len() {
                assert(before[a] <= n - 1);
            }
        }
        assert forall|a: int, b: int| 0 <= a < b < now.len() implies now[a] < now[b] by {
            assert(now[a] == before[a] && before[a] <= n - 1);
            if b < before.len() {
                assert(now[b] == before[b]);
            }
        }
    }
}

/// The search goes on in the first empty cell that at most one digit fits; where
/// every empty cell has more, in the first of those that the fewest fit.
pub proof fn law_the_search_goes_where_the_fewest_fit(s: Seq<int>, j: int)
    requires
        is_board(s),
        !full(s),
        0 <= j < 81,
        s[j] == 0,
    ensures
        ({
            let i = choice(s);
            let few = candidates(s, i).len();
            &&& 0 <= i < 81
            &&& s[i] == 0
            &&& few > 1 ==> candidates(s, j).len() >= few
            &&& j < i ==> candidates(s, j).len() > few && candidates(s, j).len() > 1
        }),
{
    lemma_choice_exists(s);
    assert(is_choice(s, choice(s)));
    assert(s[j] == 0);
}

/// In the cell where it goes on, the search keeps the first digit of its order
/// with which the board can be finished: it is the solution's, and with none of
/// those before it is there a solution.
pub proof fn law_the_search_keeps_the_first_digit_that_works(s: Seq<int>, stream: Option<u64>)
    requires
        is_board(s),
        legal(s),
        !full(s),
        first_solution(s, stream).0 is Some,
    ensures
        ({
            let i = choice(s);
            let order = search_order(candidates(s, i), stream).0;
            let t = first_solution(s, stream).0->0;
            exists|k: int|
                0 <= k < order.len() && (#[trigger] order[k]) == t[i] && forall|j: int|
                    0 <= j < k ==> solutions_of(s.update(i, #[trigger] order[j])) == Set::<
                        Seq<int>,
                    >::empty()
        }),
{
    let i = choice(s);
    lemma_choice_exists(s);
    lemma_candidates_in_order(s, i, stream);
    let (order, after) = search_order(candidates(s, i), stream);
    lemma_first_that_works(s, i, order, after);
}

proof fn lemma_first_that_works(s: Seq<int>, i: int, order: Seq<int>, stream: Option<u64>)
    requires
        is_board(s),
        legal(s),
        0 <= i < 81,
        s[i] == 0,
        forall|k: int|
            0 <= k < order.len() ==> fits(s, i, #[trigger] order[k]) && 1 <= order[k] <= 9,
        try_digits(s, i, order, stream).0 is Some,
    ensures
        exists|k: int|
            0 <= k < order.len() && (#[trigger] order[k]) == (try_digits(
                s,
                i,
                order,
                stream,
            ).0->0)[i] && forall|j: int|
                0 <= j < k ==> solutions_of(s.update(i, #[trigger] order[j])) == Set::<
                    Seq<int>,
                >::empty(),
    decreases order.len(),
{
    if order.len() > 0 {
        let v = order[0];
        assert(fits(s, i, v) && 1 <= v <= 9);
        let u = s.update(i, v);
        lemma_place_legal(s, i, v);
        lemma_first_solution(u, stream);
        let (found, after) = first_solution(u, stream);
        if found is Some {
            assert(u[i] == v);
            assert(order[0] == (found->0)[i]);
        } else {
            let rest = order.drop_first();
            assert forall|k: int| 0 <= k < rest.len() implies fits(s, i, #[trigger] rest[k]) && 1
                <= rest[k] <= 9 by {
                assert(rest[k] == order[k + 1]);
            }
            lemma_first_that_works(s, i, rest, after);
            let t = try_digits(s, i, rest, after).0->0;
            let k = choose|k: int|
                0 <= k < rest.len() && (#[trigger] rest[k]) == t[i] && forall|j: int|
                    0 <= j < k ==> solutions_of(s.update(i, #[trigger] rest[j])) == Set::<
                        Seq<int>,
                    >::empty();
            assert(order[k + 1] == t[i]);
            assert forall|j: int| 0 <= j < k + 1 implies solutions_of(
                s.update(i, #[trigger] order[j]),
            ) == Set::<Seq<int>>::empty() by {
                if j > 0 {
                    assert(rest[j - 1] == order[j]);
                } else {
                    assert(solutions_of(u) =~= Set::<Seq<int>>::empty());
                }
            }
        }
    }
}

/// A line of text writes a board out in reading order: a point or a nought for
/// an empty cell and the digit for any other; nothing else is a line.
pub proof fn law_lines_write_boards_out(text: Seq<char>, s: Seq<int>, r: int, c: int)
    requires
        is_board(s),
        0 <= r < 9,
        0 <= c < 9,
    ensures
        is_line(text) <==> text.len() == 81 && forall|i: int|
            0 <= i < 81 ==> (#[trigger] text[i] == '.' || ('0' <= text[i] && text[i] <= '9')),
        is_line(text) && text[9 * r + c] == '.' ==> at(board_of_line(text), r, c) == 0,
        is_line(text) && '0' <= text[9 * r + c] && text[9 * r + c] <= '9' ==> at(
            board_of_line(text),
            r,
            c,
        ) == text[9 * r + c] as int - '0' as int,
        line_of(s).len() == 81,
        at(s, r, c) == 0 ==> line_of(s)[9 * r + c] == '.',
        at(s, r, c) != 0 ==> line_of(s)[9 * r + c] as int == '0' as int + at(s, r, c),
{
    lemma_place(r, c);
    assert(0 <= s[9 * r + c] <= 9);
}

/// A save is played on exactly where its level is spelled as one of the three,
/// its three lines are boards, the solution is finished and legal and agrees
/// with every given, and the board holds every given and breaks no constraint.
pub proof fn law_only_playable_saves_load(saved: SavedPuzzle)
    ensures
        rebuild_failure(saved) is None <==> {
            let givens = board_of_line(saved.givens@);
            let solution = board_of_line(saved.solution@);
            let board = board_of_line(saved.board@);
            &&& saved.difficulty@ == "easy"@ || saved.difficulty@ == "medium"@ || saved.difficulty@
                == "hard"@
            &&& is_line(saved.givens@) && is_line(saved.solution@) && is_line(saved.board@)
            &&& full(solution) && legal(solution) && legal(board)
            &&& forall|i: int| 0 <= i < 81 && #[trigger] givens[i] != 0 ==> solution[i] == givens[i]
            &&& forall|i: int| 0 <= i < 81 && #[trigger] givens[i] != 0 ==> board[i] == givens[i]
        },
{
    if saved.difficulty@ == "easy"@ {
        assert(Difficulty::Easy.slug_text() == saved.difficulty@);
    }
    if saved.difficulty@ == "medium"@ {
        assert(Difficulty::Medium.slug_text() == saved.difficulty@);
    }
    if saved.difficulty@ == "hard"@ {
        assert(Difficulty::Hard.slug_text() == saved.difficulty@);
    }
}

/// A cell is named by its row and its column, each counted from one.
pub proof fn law_cells_are_named_by_row_and_column(row: int, column: int)
    requires
        0 <= row < 9,
        0 <= column < 9,
    ensures
        cell_name(9 * row + column).len() == 4,
        cell_name(9 * row + column)[0] == 'R',
        cell_name(9 * row + column)[1] as int == '1' as int + row,
        cell_name(9 * row + column)[2] == 'C',
        cell_name(9 * row + column)[3] as int == '1' as int + column,
{
    assert((9 * row + column) / 9 == row);
    assert((9 * row + column) % 9 == column);
    assert(decimal((row + 1) as nat) =~= seq![digit_char((row + 1) as nat)]);
    assert(decimal((column + 1) as nat) =~= seq![digit_char((column + 1) as nat)]);
}

/// Each level has its own label and its own spelling in the save file.
pub proof fn law_levels_have_their_words(level: Difficulty)
    ensures
        level is Easy ==> level.label_text() == "EASY"@ && level.slug_text() == "easy"@,
        level is Medium ==> level.label_text() == "MEDIUM"@ && level.slug_text() == "medium"@,
        level is Hard ==> level.label_text() == "HARD"@ && level.slug_text() == "hard"@,
{
}

/// What a refused digit is told: that the puzzle is done, that the cell is a
/// given, or which cell is in the way.
pub proof fn law_refusals_are_put_in_words(error: MoveError)
    ensures
        error is Solved ==> error.message_text() == "the puzzle is already solved"@,
        error is Given ==> error.message_text() == "that cell is one of the puzzle's givens"@,
        error matches MoveError::Conflict { with } ==> error.message_text()
            == "that digit is already in "@ + cell_name(with@),
{
}

/// Guesses are made in order where there is no stream, and otherwise in an order
/// drawn from it: the same digits, as often as before.
pub proof fn law_guesses_are_in_order_or_drawn(digits: Seq<int>, stream: Option<u64>)
    ensures
        stream is None ==> search_order(digits, stream) == (digits, None::<u64>),
        search_order(digits, stream).0.to_multiset() == digits.to_multiset(),
        stream is Some ==> search_order(digits, stream).1 == Some(
            drawn_on(stream->0, digits.len() as int - 1),
        ),
{
    if stream is Some {
        lemma_shuffle_permutes(digits, digits.len() as int, stream->0);
        law_a_shuffle_draws_once_per_place(digits, digits.len() as int, stream->0);
    }
}

/// Where a stream stands after so many draws.
pub open spec fn drawn_on(state: u64, draws: int) -> u64
    decreases draws,
{
    if draws <= 0 {
        state
    } else {
        drawn_on(advance(state), draws - 1)
    }
}

/// A shuffle draws once for each place but the first, and leaves what stands
/// after the places it was asked to shuffle.
pub proof fn law_a_shuffle_draws_once_per_place<T>(items: Seq<T>, n: int, state: u64)
    requires
        n <= items.len(),
    ensures
        shuffled(items, n, state).1 == drawn_on(state, n - 1),
        shuffled(items, n, state).0.len() == items.len(),
        forall|k: int|
            0 <= k && n <= k < items.len() ==> #[trigger] shuffled(items, n, state).0[k]
                == items[k],
    decreases n,
{
    if n > 1 {
        let next = advance(state);
        let other = scale(mix(next), n);
        lemma_scale_below(mix(next), n);
        law_a_shuffle_draws_once_per_place(exchanged(items, n - 1, other), n - 1, next);
    }
}

/// A draw is spread evenly: it stands to the whole range as the number it is
/// scaled to stands to the bound, rounded down.
pub proof fn law_draws_are_spread_evenly(draw: u64, bound: int)
    requires
        bound > 0,
    ensures
        scale(draw, bound) * 0x1_0000_0000_0000_0000 <= draw * bound,
        draw * bound < (scale(draw, bound) + 1) * 0x1_0000_0000_0000_0000,
{
}

/// A digit that leads to no solution is passed over: the search goes on with the
/// digits after it, from where the stream was left.
pub proof fn law_a_digit_that_fails_is_passed_over(
    s: Seq<int>,
    i: int,
    order: Seq<int>,
    stream: Option<u64>,
)
    requires
        s.len() == 81,
        0 <= i < 81,
        s[i] == 0,
        order.len() > 0,
        forall|k: int| 0 <= k < order.len() ==> #[trigger] order[k] != 0,
    ensures
        ({
            let (found, after) = first_solution(s.update(i, order[0]), stream);
            &&& found is Some ==> try_digits(s, i, order, stream) == (found, after)
            &&& found is None ==> try_digits(s, i, order, stream) == try_digits(
                s,
                i,
                order.skip(1),
                after,
            )
        }),
{
    let (found, after) = first_solution(s.update(i, order[0]), stream);
    assert(order.drop_first() =~= order.skip(1));
    if found is Some {
        assert(try_digits(s, i, order, stream) == (found, after));
    } else {
        assert(try_digits(s, i, order, stream) == try_digits(s, i, order.drop_first(), after));
    }
}

/// What is said of a save that cannot be played: the level first, then the three
/// lines in their order, then the solution, then the givens and the board.
pub proof fn law_the_first_fault_of_a_save_is_told(saved: SavedPuzzle, i: int)
    ensures
        ({
            let told = rebuild_failure(saved);
            let givens = board_of_line(saved.givens@);
            let solution = board_of_line(saved.solution@);
            let board = board_of_line(saved.board@);
            let known = saved.difficulty@ == "easy"@ || saved.difficulty@ == "medium"@
                || saved.difficulty@ == "hard"@;
            let read = known && is_line(saved.givens@) && is_line(saved.solution@) && is_line(
                saved.board@,
            );
            &&& !known ==> told == Some("`"@ + saved.difficulty@ + "` is not a difficulty"@)
            &&& known && !is_line(saved.givens@) ==> told == Some(
                "the givens are not 81 valid cells"@,
            )
            &&& known && is_line(saved.givens@) && !is_line(saved.solution@) ==> told == Some(
                "the solution are not 81 valid cells"@,
            )
            &&& known && is_line(saved.givens@) && is_line(saved.solution@) && !is_line(
                saved.board@,
            ) ==> told == Some("the board are not 81 valid cells"@)
            &&& read && !(full(solution) && legal(solution)) ==> told == Some(
                "the stored solution is not a finished, legal grid"@,
            )
            &&& read && full(solution) && legal(solution) && 0 <= i < 81 && givens[i] != 0
                && givens[i] != solution[i] && (forall|j: int|
                0 <= j < i && #[trigger] givens[j] != 0 ==> givens[j] == solution[j]) ==> told
                == Some("the given at "@ + cell_name(i) + " does not match the stored solution"@)
            &&& read && full(solution) && legal(solution) && (forall|j: int|
                0 <= j < 81 && #[trigger] givens[j] != 0 ==> givens[j] == solution[j]) && 0 <= i
                < 81 && givens[i] != 0 && givens[i] != board[i] && (forall|j: int|
                0 <= j < i && #[trigger] givens[j] != 0 ==> givens[j] == board[j]) ==> told == Some(
                "the board does not hold the given at "@ + cell_name(i),
            )
            &&& read && full(solution) && legal(solution) && (forall|j: int|
                0 <= j < 81 && #[trigger] givens[j] != 0 ==> givens[j] == solution[j] && givens[j]
                    == board[j]) && !legal(board) ==> told == Some(
                "the board breaks a row, column or block constraint"@,
            )
        }),
{
    let givens = board_of_line(saved.givens@);
    let solution = board_of_line(saved.solution@);
    let board = board_of_line(saved.board@);
    assert(is_level(saved.difficulty@) <==> saved.difficulty@ == "easy"@ || saved.difficulty@
        == "medium"@ || saved.difficulty@ == "hard"@) by {
        assert(Difficulty::Easy.slug_text() == "easy"@);
        assert(Difficulty::Medium.slug_text() == "medium"@);
        assert(Difficulty::Hard.slug_text() == "hard"@);
    }
    assert(not_cells_message("givens"@) =~= "the givens are not 81 valid cells"@) by {
        reveal_strlit("the ");
        reveal_strlit("givens");
        reveal_strlit(" are not 81 valid cells");
        reveal_strlit("the givens are not 81 valid cells");
    }
    assert(not_cells_message("solution"@) =~= "the solution are not 81 valid cells"@) by {
        reveal_strlit("the ");
        reveal_strlit("solution");
        reveal_strlit(" are not 81 valid cells");
        reveal_strlit("the solution are not 81 valid cells");
    }
    assert(not_cells_message("board"@) =~= "the board are not 81 valid cells"@) by {
        reveal_strlit("the ");
        reveal_strlit("board");
        reveal_strlit(" are not 81 valid cells");
        reveal_strlit("the board are not 81 valid cells");
    }
    if is_first_mismatch(givens, solution, i) {
        lemma_first_mismatch(givens, solution, i);
    }
    if is_first_mismatch(givens, board, i) {
        lemma_first_mismatch(givens, board, i);
    }
}

} // verus!
