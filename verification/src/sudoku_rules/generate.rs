//! Generating a puzzle, and the difficulty levels that describe one.

use vstd::prelude::*;
use vstd::string::*;

use crate::sudoku_rules::grid::{lemma_grid_by_view, lemma_grid_is_board, Grid};
use crate::sudoku_rules::model::{
    empty_board, extends, filled, full, is_board, is_solution, lemma_complete_solutions,
    lemma_empty_solvable, lemma_fewer_clues, lemma_filled_all, lemma_filled_bound,
    lemma_filled_update, lemma_one_hole_unique, lemma_solutions_finite, solutions_of, solved,
    unique,
};
use crate::sudoku_rules::rng::{lemma_shuffle_map, lemma_shuffle_permutes, shuffled, Rng};
use crate::sudoku_rules::solve::{
    complete, first_solution, lemma_first_solution, lemma_opening_digit, opening_digit, solutions,
};
use crate::sudoku_rules::types::{cell_name, indices, Cell};
use crate::text::{push_text, same_text};

verus! {

/// How much of the solution a puzzle gives away.
///
/// Clue count, not solving technique: fewer givens generally means a harder
/// puzzle, and the label says nothing it cannot back up.
#[derive(Debug, Clone, Copy, PartialEq, Eq, Hash, Structural)]
pub enum Difficulty {
    /// Roughly 42 givens.
    Easy,
    /// Roughly 34 givens.
    Medium,
    /// Roughly 28 givens.
    Hard,
}

impl Difficulty {
    /// Every level, easiest first.
    pub const ALL: [Difficulty; 3] = [Difficulty::Easy, Difficulty::Medium, Difficulty::Hard];

    /// The label a screen shows.
    pub open spec fn label_text(self) -> Seq<char> {
        match self {
            Difficulty::Easy => "EASY"@,
            Difficulty::Medium => "MEDIUM"@,
            Difficulty::Hard => "HARD"@,
        }
    }

    /// The spelling the save file uses.
    pub open spec fn slug_text(self) -> Seq<char> {
        match self {
            Difficulty::Easy => "easy"@,
            Difficulty::Medium => "medium"@,
            Difficulty::Hard => "hard"@,
        }
    }

    /// How many givens generation aims to leave.
    pub open spec fn target(self) -> nat {
        match self {
            Difficulty::Easy => 42,
            Difficulty::Medium => 34,
            Difficulty::Hard => 28,
        }
    }

    /// The next level, wrapping.
    pub open spec fn following(self) -> Difficulty {
        match self {
            Difficulty::Easy => Difficulty::Medium,
            Difficulty::Medium => Difficulty::Hard,
            Difficulty::Hard => Difficulty::Easy,
        }
    }

    /// The label a screen shows.
    pub fn label(self) -> (label: &'static str)
        ensures
            label@ == self.label_text(),
    {
        match self {
            Difficulty::Easy => "EASY",
            Difficulty::Medium => "MEDIUM",
            Difficulty::Hard => "HARD",
        }
    }

    /// The spelling the save file uses.
    pub fn slug(self) -> (slug: &'static str)
        ensures
            slug@ == self.slug_text(),
    {
        match self {
            Difficulty::Easy => "easy",
            Difficulty::Medium => "medium",
            Difficulty::Hard => "hard",
        }
    }

    /// The level [`Self::slug`] names, or `None`.
    pub fn parse(text: &str) -> (level: Option<Self>)
        ensures
            level is Some ==> level->0.slug_text() == text@,
            level is None ==> forall|other: Difficulty| #[trigger] other.slug_text() != text@,
    {
        if same_text(text, "easy") {
            Some(Difficulty::Easy)
        } else if same_text(text, "medium") {
            Some(Difficulty::Medium)
        } else if same_text(text, "hard") {
            Some(Difficulty::Hard)
        } else {
            None
        }
    }

    /// How many givens generation aims to leave.
    ///
    /// A target, not a guarantee: removal stops early rather than give up
    /// uniqueness, so a generated puzzle can have more givens than this and
    /// never fewer.
    pub fn target_givens(self) -> (target: usize)
        ensures
            target == self.target(),
    {
        match self {
            Difficulty::Easy => 42,
            Difficulty::Medium => 34,
            Difficulty::Hard => 28,
        }
    }

    /// The next level, wrapping: what the difficulty action steps through.
    pub fn next(self) -> (level: Self)
        ensures
            level == self.following(),
    {
        match self {
            Difficulty::Easy => Difficulty::Medium,
            Difficulty::Medium => Difficulty::Hard,
            Difficulty::Hard => Difficulty::Easy,
        }
    }
}

/// `givens` after trying, cell by cell in `order`, to take each clue away: one
/// goes where what is left still has exactly one solution, and none goes once
/// `target` are left.
pub open spec fn carved(givens: Seq<int>, order: Seq<int>, target: nat) -> Seq<int>
    decreases order.len(),
{
    if order.len() == 0 || filled(givens) <= target {
        givens
    } else {
        let trial = givens.update(order[0], 0);
        carved(
            if unique(trial) {
                trial
            } else {
                givens
            },
            order.drop_first(),
            target,
        )
    }
}

/// The cells in reading order.
pub open spec fn reading_order() -> Seq<int> {
    Seq::new(81, |i: int| i)
}

/// A puzzle's clues, its solution, and where the stream that drew it stands.
pub struct Drawn {
    pub givens: Seq<int>,
    pub solution: Seq<int>,
    pub state: u64,
}

/// The puzzle a stream at `state` gives at `level`: a finished grid, carved in
/// an order that the stream shuffles next.
pub open spec fn drawn(level: Difficulty, state: u64) -> Drawn {
    let (solution, stream) = first_solution(empty_board(), Some(state));
    let (order, after) = shuffled(reading_order(), 81, stream->0);
    Drawn { givens: carved(solution->0, order, level.target()), solution: solution->0, state: after }
}

/// A generated puzzle: the givens, and the one solution they have.
///
/// "The one" is checked, not assumed: generation never removes a clue without
/// confirming that what is left still has exactly one solution.
#[derive(Debug, Clone, Copy, PartialEq, Eq)]
pub struct Puzzle {
    pub(crate) givens: Grid,
    pub(crate) solution: Grid,
    pub(crate) difficulty: Difficulty,
}

/// Removing `cell` from `clues` leaves more than one solution.
pub open spec fn needed(clues: Seq<int>, cell: int) -> bool {
    !unique(clues.update(cell, 0))
}

/// Cell `i` is the first where a given disagrees with the other board.
pub open spec fn is_first_mismatch(givens: Seq<int>, other: Seq<int>, i: int) -> bool {
    &&& 0 <= i < 81
    &&& givens[i] != 0
    &&& givens[i] != other[i]
    &&& forall|j: int| 0 <= j < i && #[trigger] givens[j] != 0 ==> givens[j] == other[j]
}

/// The first cell where a given disagrees with the other board.
pub open spec fn first_mismatch(givens: Seq<int>, other: Seq<int>) -> int {
    choose|i: int| is_first_mismatch(givens, other, i)
}

pub proof fn lemma_first_mismatch(givens: Seq<int>, other: Seq<int>, i: int)
    requires
        is_first_mismatch(givens, other, i),
    ensures
        first_mismatch(givens, other) == i,
        !extends(other, givens),
{
    let j = first_mismatch(givens, other);
    assert(is_first_mismatch(givens, other, j));
    assert(givens[i] != 0 && givens[j] != 0);
}

impl Puzzle {
    /// The clues, as a board.
    pub open(crate) spec fn clues(&self) -> Seq<int> {
        self.givens@
    }

    /// The solution, as a board.
    pub open(crate) spec fn answer(&self) -> Seq<int> {
        self.solution@
    }

    /// The level it was generated at.
    pub open(crate) spec fn level(&self) -> Difficulty {
        self.difficulty
    }

    /// The solution is finished and legal, and every given agrees with it.
    pub open(crate) spec fn wf(&self) -> bool {
        &&& self.givens.wf()
        &&& self.solution.wf()
        &&& is_solution(self.solution@, self.givens@)
    }

    /// Generates a puzzle at `difficulty` from `seed`.
    ///
    /// Deterministic: the same seed and level always produce the same puzzle.
    pub fn generate(difficulty: Difficulty, seed: u64) -> (puzzle: Self)
        ensures
            puzzle.wf(),
            puzzle.level() == difficulty,
            puzzle.clues() == drawn(difficulty, seed).givens,
            puzzle.answer() == drawn(difficulty, seed).solution,
    {
        let mut rng = Rng::new(seed);
        Self::generate_with(difficulty, &mut rng)
    }

    /// [`Self::generate`], advancing a stream the caller keeps.
    pub fn generate_with(difficulty: Difficulty, rng: &mut Rng) -> (puzzle: Self)
        ensures
            puzzle.wf(),
            puzzle.level() == difficulty,
            puzzle.clues() == drawn(difficulty, old(rng)@).givens,
            puzzle.answer() == drawn(difficulty, old(rng)@).solution,
            final(rng)@ == drawn(difficulty, old(rng)@).state,
    {
        let ghost start = rng@;
        let solution = complete(rng);
        let ghost answer = solution@;
        let mut givens = solution;
        let target: usize = difficulty.target_givens();

        let mut order: Vec<Cell> = Cell::all();
        let ghost listed = order@;
        let ghost between = rng@;
        rng.shuffle(order.as_mut_slice());
        proof {
            assert(indices(listed) =~= reading_order());
            lemma_shuffle_map(listed, |cell: Cell| cell@, 81, between);
            lemma_shuffle_keeps_cells(listed, order@);
            lemma_grid_is_board(solution);
            lemma_complete_solutions(answer);
            lemma_filled_all(answer, 81);
            assert(indices(order@).skip(0) =~= indices(order@));
        }
        let ghost path = indices(order@);
        let ghost goal = carved(answer, path, target as nat);
        let mut remaining: usize = givens.filled();
        let mut next: usize = 0;
        while next < order.len() && remaining > target
            invariant
                next <= order@.len(),
                givens.wf(),
                is_board(givens@),
                remaining == filled(givens@),
                path == indices(order@),
                path.no_duplicates(),
                forall|k: int|
                    0 <= k < order@.len() ==> (#[trigger] order@[k]).wf() && 0 <= order@[k]@ < 81,
                forall|k: int| next <= k < order@.len() ==> givens@[#[trigger] path[k]] != 0,
                goal == carved(givens@, path.skip(next as int), target as nat),
            decreases order@.len() - next,
        {
            let cell = order[next];
            let ghost before = givens@;
            let ghost trial = givens@.update(cell@, 0);
            let ghost rest = path.skip(next as int);
            proof {
                assert(path[next as int] == cell@);
                assert(rest[0] == cell@);
                assert(rest.drop_first() =~= path.skip(next + 1));
                lemma_filled_update(before, 81, cell@, 0);
                lemma_filled_bound(trial, 81);
            }
            let removed = givens.get(cell);
            givens.set(cell, None);
            proof {
                lemma_grid_is_board(givens);
            }
            if solutions(&givens, 2) == 1 {
                remaining = remaining - 1;
            } else {
                // Uniqueness is not negotiable, so this clue stays and the
                // puzzle ends up above its target.
                givens.set(cell, removed);
                assert(givens@ =~= before);
            }
            next = next + 1;
        }
        proof {
            assert(givens@ == goal);
            lemma_carved(answer, answer, path, target as nat);
        }
        Self { givens, solution, difficulty }
    }

    /// The clues the puzzle starts with.
    pub fn givens(&self) -> (givens: &Grid)
        requires
            self.wf(),
        ensures
            givens.wf(),
            givens@ == self.clues(),
    {
        &self.givens
    }

    /// The solution those clues have.
    pub fn solution(&self) -> (solution: &Grid)
        requires
            self.wf(),
        ensures
            solution.wf(),
            solution@ == self.answer(),
    {
        &self.solution
    }

    /// Which level it was generated at.
    pub fn difficulty(&self) -> (difficulty: Difficulty)
        ensures
            difficulty == self.level(),
    {
        self.difficulty
    }

    /// Whether `cell` is one of the givens, and therefore not editable.
    pub fn is_given(&self, cell: Cell) -> (given: bool)
        requires
            self.wf(),
            cell.wf(),
        ensures
            given == (self.clues()[cell@] != 0),
    {
        self.givens.get(cell).is_some()
    }

    /// How many clues it starts with.
    pub fn given_count(&self) -> (count: usize)
        requires
            self.wf(),
        ensures
            count == filled(self.clues()),
            count <= 81,
    {
        self.givens.filled()
    }

    /// Rebuilds a puzzle from stored parts, checking they belong together.
    ///
    /// What is checked is consistency, not uniqueness: that the solution is a
    /// finished legal grid and that every given agrees with it.
    pub fn from_parts(givens: Grid, solution: Grid, difficulty: Difficulty) -> (puzzle: Result<
        Self,
        String,
    >)
        requires
            givens.wf(),
            solution.wf(),
        ensures
            puzzle is Ok <==> is_solution(solution@, givens@),
            puzzle is Ok ==> {
                let built = puzzle->Ok_0;
                &&& built.wf()
                &&& built.clues() == givens@
                &&& built.answer() == solution@
                &&& built.level() == difficulty
            },
            puzzle is Err && !solved(solution@) ==> puzzle->Err_0@ == unsolved_message(),
            puzzle is Err && solved(solution@) ==> puzzle->Err_0@ == mismatch_message(
                first_mismatch(givens@, solution@),
            ),
    {
        proof {
            lemma_grid_is_board(solution);
        }
        if !solution.is_solved() {
            return Err("the stored solution is not a finished, legal grid".to_owned());
        }
        for index in 0..81usize
            invariant
                givens.wf(),
                solution.wf(),
                solved(solution@),
                forall|j: int|
                    0 <= j < index && #[trigger] givens@[j] != 0 ==> givens@[j] == solution@[j],
        {
            let cell = Cell::at(index);
            if let Some(digit) = givens.get(cell) {
                if solution.get(cell) != Some(digit) {
                    let mut reason = "the given at ".to_owned();
                    push_text(&mut reason, cell.name().as_str());
                    push_text(&mut reason, " does not match the stored solution");
                    proof {
                        assert(is_first_mismatch(givens@, solution@, index as int));
                        lemma_first_mismatch(givens@, solution@, index as int);
                        assert(reason@ =~= mismatch_message(index as int));
                    }
                    return Err(reason);
                }
            }
        }
        Ok(Self { givens, solution, difficulty })
    }
}

/// What is said of a stored solution that is none.
pub open spec fn unsolved_message() -> Seq<char> {
    "the stored solution is not a finished, legal grid"@
}

/// What is said of a given that the stored solution contradicts.
pub open spec fn mismatch_message(i: int) -> Seq<char> {
    "the given at "@ + cell_name(i) + " does not match the stored solution"@
}

proof fn lemma_shuffle_keeps_cells(before: Seq<Cell>, after: Seq<Cell>)
    requires
        before.len() == 81,
        forall|i: int| 0 <= i < 81 ==> (#[trigger] before[i]).wf() && before[i]@ == i,
        before.to_multiset() == after.to_multiset(),
        before.len() == after.len(),
    ensures
        forall|k: int|
            0 <= k < 81 ==> (#[trigger] after[k]).wf() && 0 <= after[k]@ < 81,
        indices(after).no_duplicates(),
        forall|i: int| 0 <= i < 81 ==> #[trigger] indices(after).contains(i),
{
    broadcast use vstd::seq_lib::group_to_multiset_ensures;

    assert forall|k: int| 0 <= k < 81 implies (#[trigger] after[k]).wf() && 0 <= after[k]@ < 81 by {
        assert(after.contains(after[k]));
        assert(after.to_multiset().count(after[k]) > 0);
        assert(before.contains(after[k]));
    }
    assert(before.no_duplicates()) by {
        assert forall|a: int, b: int| 0 <= a < 81 && 0 <= b < 81 && a != b implies before[a]
            != before[b] by {
            assert(before[a]@ == a && before[b]@ == b);
        }
    }
    before.lemma_multiset_has_no_duplicates();
    after.lemma_multiset_has_no_duplicates_conv();
    let path = indices(after);
    assert forall|a: int, b: int| 0 <= a < 81 && 0 <= b < 81 && a != b implies path[a]
        != path[b] by {
        assert(after[a] != after[b]);
        assert(after[a].wf() && after[b].wf());
    }
    assert forall|i: int| 0 <= i < 81 implies #[trigger] path.contains(i) by {
        assert(before.contains(before[i]));
        assert(before.to_multiset().count(before[i]) > 0);
        assert(after.contains(before[i]));
        let k = choose|k: int| 0 <= k < after.len() && after[k] == before[i];
        assert(path[k] == i);
    }
}

/// Carving keeps the one solution, never goes below the target, and where it
/// stays above it has no clue of `order` left to take.
proof fn lemma_carved(givens: Seq<int>, answer: Seq<int>, order: Seq<int>, target: nat)
    requires
        is_board(givens),
        is_solution(answer, givens),
        unique(givens),
        forall|k: int| 0 <= k < order.len() ==> 0 <= #[trigger] order[k] < 81,
    ensures
        is_board(carved(givens, order, target)),
        extends(givens, carved(givens, order, target)),
        is_solution(answer, carved(givens, order, target)),
        unique(carved(givens, order, target)),
        filled(givens) >= target ==> filled(carved(givens, order, target)) >= target,
        filled(carved(givens, order, target)) > target ==> forall|k: int|
            0 <= k < order.len() && carved(givens, order, target)[#[trigger] order[k]] != 0
                ==> needed(carved(givens, order, target), order[k]),
    decreases order.len(),
{
    if order.len() > 0 && filled(givens) > target {
        let c = order[0];
        let trial = givens.update(c, 0);
        let rest = order.drop_first();
        let next = if unique(trial) {
            trial
        } else {
            givens
        };
        let result = carved(next, rest, target);
        lemma_filled_update(givens, 81, c, 0);
        lemma_filled_bound(trial, 81);
        lemma_carved(next, answer, rest, target);
        assert forall|i: int| 0 <= i < 81 && #[trigger] result[i] != 0 implies givens[i]
            == result[i] by {
            assert(next[i] == result[i]);
        }
        if filled(result) > target {
            assert forall|k: int|
                0 <= k < order.len() && result[#[trigger] order[k]] != 0 implies needed(
                result,
                order[k],
            ) by {
                if k > 0 {
                    assert(rest[k - 1] == order[k]);
                } else {
                    assert(next[c] == result[c]);
                    assert(next == givens);
                    let less = result.update(c, 0);
                    assert forall|i: int| 0 <= i < 81 && #[trigger] less[i] != 0 implies trial[i]
                        == less[i] by {
                        assert(result[i] != 0);
                    }
                    lemma_fewer_clues(trial, less);
                    assert forall|i: int| 0 <= i < 81 && #[trigger] trial[i] != 0 implies answer[i]
                        == trial[i] by {
                        assert(givens[i] != 0);
                    }
                    assert(solutions_of(trial).contains(answer));
                    lemma_solutions_finite(trial);
                    lemma_solutions_finite(less);
                    vstd::set_lib::lemma_len_subset(solutions_of(trial), solutions_of(less));
                    assert(solutions_of(trial).len() > 0);
                }
            }
        }
    }
}

/// What every generated puzzle is, whatever the seed: its clues have exactly
/// one solution, which is the puzzle's own; there are at least as many clues
/// as the level aims for; and where there are more, not one of them can be
/// taken away without losing uniqueness.
pub proof fn law_generated_puzzle(level: Difficulty, seed: u64)
    ensures
        is_board(drawn(level, seed).givens),
        is_board(drawn(level, seed).solution),
        solved(drawn(level, seed).solution),
        extends(drawn(level, seed).solution, drawn(level, seed).givens),
        unique(drawn(level, seed).givens),
        solutions_of(drawn(level, seed).givens) == set![drawn(level, seed).solution],
        filled(drawn(level, seed).givens) >= level.target(),
        filled(drawn(level, seed).givens) > level.target() ==> forall|i: int|
            0 <= i < 81 && #[trigger] drawn(level, seed).givens[i] != 0 ==> needed(
                drawn(level, seed).givens,
                i,
            ),
{
    broadcast use vstd::seq_lib::group_to_multiset_ensures;

    lemma_empty_solvable();
    lemma_first_solution(empty_board(), Some(seed));
    assert(solutions_of(empty_board()).contains(crate::sudoku_rules::model::pattern_board()));
    let (found, stream) = first_solution(empty_board(), Some(seed));
    let answer = found->0;
    let listed = reading_order();
    let (order, after) = shuffled(listed, 81, stream->0);
    lemma_shuffle_permutes(listed, 81, stream->0);
    lemma_complete_solutions(answer);
    lemma_filled_all(answer, 81);
    assert forall|k: int| 0 <= k < order.len() implies 0 <= #[trigger] order[k] < 81 by {
        assert(order.contains(order[k]));
        assert(order.to_multiset().count(order[k]) > 0);
        assert(listed.contains(order[k]));
    }
    lemma_carved(answer, answer, order, level.target());
    let clues = drawn(level, seed).givens;
    assert(solutions_of(clues).contains(answer));
    lemma_solutions_finite(clues);
    assert(solutions_of(clues) =~= set![answer]) by {
        assert forall|t: Seq<int>| solutions_of(clues).contains(t) implies t == answer by {
            if t != answer {
                let rest = solutions_of(clues).remove(answer);
                assert(rest.contains(t));
                assert(rest.len() == 0);
            }
        }
    }
    if filled(clues) > level.target() {
        assert forall|i: int| 0 <= i < 81 && #[trigger] clues[i] != 0 implies needed(clues, i) by {
            assert(listed[i] == i);
            assert(listed.contains(i));
            assert(listed.to_multiset().count(i) > 0);
            assert(order.contains(i));
            let k = choose|k: int| 0 <= k < order.len() && order[k] == i;
            assert(needed(clues, order[k]));
        }
    }
}

/// A generated puzzle always leaves something to fill in.
pub proof fn law_generated_puzzle_is_unfinished(level: Difficulty, seed: u64)
    ensures
        !full(drawn(level, seed).givens),
{
    law_generated_puzzle(level, seed);
    let (clues, answer) = (drawn(level, seed).givens, drawn(level, seed).solution);
    assert(solutions_of(clues).contains(answer));
    if full(clues) {
        lemma_filled_all(clues, 81);
        assert(clues[0] != 0);
        assert(needed(clues, 0));
        assert forall|i: int| 0 <= i < 81 implies answer[i] == #[trigger] clues[i] by {
            assert(clues[i] != 0);
        }
        lemma_one_hole_unique(answer, 0);
        assert(answer.update(0, 0) =~= clues.update(0, 0));
    }
}

/// Generation is deterministic in its seed: two puzzles of one level from one
/// seed are the same puzzle.
pub proof fn law_generation_deterministic(level: Difficulty, seed: u64, one: Puzzle, again: Puzzle)
    requires
        one.wf(),
        again.wf(),
        one.level() == level,
        again.level() == level,
        one.clues() == drawn(level, seed).givens,
        again.clues() == drawn(level, seed).givens,
        one.answer() == drawn(level, seed).solution,
        again.answer() == drawn(level, seed).solution,
    ensures
        one == again,
{
    lemma_grid_by_view(one.givens, again.givens);
    lemma_grid_by_view(one.solution, again.solution);
}

/// The seed matters: puzzles with the same clues have the same answer, so two
/// seeds that open their grids with different digits never give the same clues,
/// whatever the levels.
pub proof fn law_seed_matters(level: Difficulty, one: u64, another: Difficulty, other: u64)
    requires
        opening_digit(one) != opening_digit(other),
    ensures
        drawn(level, one).solution != drawn(another, other).solution,
        drawn(level, one).givens != drawn(another, other).givens,
{
    law_generated_puzzle(level, one);
    law_generated_puzzle(another, other);
    lemma_opening_digit(one);
    lemma_opening_digit(other);
    let (answer, contrary) = (drawn(level, one).solution, drawn(another, other).solution);
    assert(answer[0] != contrary[0]);
    if drawn(level, one).givens == drawn(another, other).givens {
        assert(set![answer].contains(answer));
        assert(set![contrary].contains(answer));
    }
}

/// Every level's spelling is its own.
pub proof fn law_slugs_distinct(one: Difficulty, other: Difficulty)
    requires
        one.slug_text() == other.slug_text(),
    ensures
        one == other,
{
    reveal_strlit("easy");
    reveal_strlit("medium");
    reveal_strlit("hard");
    assert("easy"@[0] == 'e');
    assert("medium"@[0] == 'm');
    assert("hard"@[0] == 'h');
}

} // verus!
