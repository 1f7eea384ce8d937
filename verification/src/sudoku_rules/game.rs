//! A puzzle being played: the board, what may be entered on it, and where the
//! next puzzle comes from.

use vstd::prelude::*;

use crate::sudoku_rules::error::MoveError;
use crate::sudoku_rules::generate::{drawn, Difficulty, Puzzle};
use crate::sudoku_rules::grid::{cell_value, lemma_grid_by_view, lemma_grid_is_board, Grid};
use crate::sudoku_rules::model::{
    are_peers, empties, extends, filled, filled_before, fits, full, is_solution, legal,
    lemma_filled_bound, lemma_lift_legal, lemma_place_legal, solutions_of, solved, unique,
};
use crate::sudoku_rules::rng::Rng;
use crate::sudoku_rules::types::{cell_of, Cell, Digit};

verus! {

/// One in-progress Sudoku.
///
/// Holds the board, givens and entries together, rather than an overlay,
/// because every question asked of it is a question about the board. Which
/// cells are the player's is the puzzle's answer, and that never changes.
///
/// The generator stream lives here too, so [`Game::new_puzzle`] needs no
/// ambient randomness, and a saved game resumes the sequence rather than
/// restarting it.
#[derive(Debug, Clone, Copy, PartialEq, Eq)]
pub struct Game {
    pub(crate) puzzle: Puzzle,
    pub(crate) board: Grid,
    pub(crate) rng: Rng,
    pub(crate) revision: u64,
}

/// Cell `first` is the first, in reading order, that rules `v` out at `i`.
pub open spec fn is_first_conflict(s: Seq<int>, i: int, v: int, first: int) -> bool {
    &&& 0 <= first < 81
    &&& are_peers(i, first)
    &&& s[first] == v
    &&& forall|j: int| 0 <= j < first && #[trigger] are_peers(i, j) ==> s[j] != v
}

/// The first cell, in reading order, that rules `v` out at `i`.
pub open spec fn first_conflict(s: Seq<int>, i: int, v: int) -> int {
    choose|first: int| is_first_conflict(s, i, v, first)
}

proof fn lemma_first_conflict(s: Seq<int>, i: int, v: int, first: int)
    requires
        is_first_conflict(s, i, v, first),
    ensures
        first_conflict(s, i, v) == first,
        !fits(s, i, v),
{
    let other = first_conflict(s, i, v);
    assert(is_first_conflict(s, i, v, other));
    assert(are_peers(i, first) && are_peers(i, other));
}

/// What a game consists of.
pub struct GameState {
    /// The puzzle being played.
    pub task: Puzzle,
    /// The board as it stands.
    pub position: Seq<int>,
    /// Where the generator stream has got to.
    pub stream: u64,
    /// How many times the game has changed.
    pub changes: int,
}

/// Whether entering `v` in cell `i` is accepted, or why not.
pub open spec fn entry_verdict(game: GameState, i: int, v: int) -> Result<(), MoveError> {
    if solved(game.position) {
        Err(MoveError::Solved)
    } else if game.task.clues()[i] != 0 {
        Err(MoveError::Given)
    } else if game.position[i] == v || fits(game.position, i, v) {
        Ok(())
    } else {
        Err(MoveError::Conflict { with: cell_of(first_conflict(game.position, i, v)) })
    }
}

/// Whether emptying cell `i` is accepted, or why not.
pub open spec fn clear_verdict(game: GameState, i: int) -> Result<(), MoveError> {
    if solved(game.position) {
        Err(MoveError::Solved)
    } else if game.task.clues()[i] != 0 {
        Err(MoveError::Given)
    } else {
        Ok(())
    }
}

/// The game once cell `i` holds `v`, or nothing for `0`: a change only where it
/// did not already.
pub open spec fn rewritten(game: GameState, i: int, v: int) -> GameState {
    if game.position[i] == v {
        game
    } else {
        GameState {
            position: game.position.update(i, v),
            changes: game.changes + 1,
            ..game
        }
    }
}

/// The game with the next puzzle of its stream.
pub open spec fn renewed(game: GameState, next: GameState, level: Difficulty) -> bool {
    let fresh = drawn(level, game.stream);
    &&& next.task.wf()
    &&& next.task.level() == level
    &&& next.task.clues() == fresh.givens
    &&& next.task.answer() == fresh.solution
    &&& next.position == fresh.givens
    &&& next.stream == fresh.state
    &&& next.changes == game.changes + 1
}

impl Game {
    /// What the game consists of.
    pub open spec fn state(&self) -> GameState {
        GameState {
            task: self.task(),
            position: self.position(),
            stream: self.stream(),
            changes: self.changes() as int,
        }
    }

    /// The board as it stands.
    pub open(crate) spec fn position(&self) -> Seq<int> {
        self.board@
    }

    /// The puzzle being played.
    pub open(crate) spec fn task(&self) -> Puzzle {
        self.puzzle
    }

    /// Where the generator stream has got to.
    pub open(crate) spec fn stream(&self) -> u64 {
        self.rng@
    }

    /// How many times the game has changed.
    pub open(crate) spec fn changes(&self) -> u64 {
        self.revision
    }

    /// The board is the givens plus entries that break no constraint.
    pub open(crate) spec fn wf(&self) -> bool {
        &&& self.puzzle.wf()
        &&& self.board.wf()
        &&& legal(self.board@)
        &&& extends(self.board@, self.puzzle.clues())
    }

    /// Generates a puzzle at `difficulty` from `seed` and starts it.
    pub fn start(difficulty: Difficulty, seed: u64) -> (game: Self)
        ensures
            game.wf(),
            game.task().level() == difficulty,
            game.task().clues() == drawn(difficulty, seed).givens,
            game.task().answer() == drawn(difficulty, seed).solution,
            game.position() == game.task().clues(),
            game.stream() == drawn(difficulty, seed).state,
            game.changes() == 0,
    {
        let mut rng = Rng::new(seed);
        let puzzle = Puzzle::generate_with(difficulty, &mut rng);
        proof {
            lemma_clues_legal(puzzle.clues(), puzzle.answer());
        }
        Self { board: *puzzle.givens(), puzzle, rng, revision: 0 }
    }

    /// Replaces the puzzle with a freshly generated one at `difficulty`,
    /// taking the next puzzle from this game's own stream.
    pub fn new_puzzle(&mut self, difficulty: Difficulty)
        requires
            old(self).wf(),
            old(self).changes() < u64::MAX,
        ensures
            final(self).wf(),
            renewed(old(self).state(), final(self).state(), difficulty),
    {
        self.puzzle = Puzzle::generate_with(difficulty, &mut self.rng);
        self.board = *self.puzzle.givens();
        self.revision = self.revision + 1;
        proof {
            lemma_clues_legal(self.puzzle.clues(), self.puzzle.answer());
        }
    }

    /// The puzzle being played.
    pub fn puzzle(&self) -> (puzzle: &Puzzle)
        requires
            self.wf(),
        ensures
            *puzzle == self.task(),
            puzzle.wf(),
    {
        &self.puzzle
    }

    /// The level the current puzzle was generated at.
    pub fn difficulty(&self) -> (difficulty: Difficulty)
        ensures
            difficulty == self.task().level(),
    {
        self.puzzle.difficulty()
    }

    /// The board as it stands: givens and entries together.
    pub fn board(&self) -> (board: &Grid)
        requires
            self.wf(),
        ensures
            board.wf(),
            board@ == self.position(),
    {
        &self.board
    }

    /// What is in `cell`, given or entered.
    pub fn digit_at(&self, cell: Cell) -> (content: Option<Digit>)
        requires
            self.wf(),
            cell.wf(),
        ensures
            cell_value(content) == self.position()[cell@],
            content is Some <==> self.position()[cell@] != 0,
            content is Some ==> content->0.wf(),
    {
        self.board.get(cell)
    }

    /// Whether `cell` is one of the puzzle's givens.
    pub fn is_given(&self, cell: Cell) -> (given: bool)
        requires
            self.wf(),
            cell.wf(),
        ensures
            given == (self.task().clues()[cell@] != 0),
    {
        self.puzzle.is_given(cell)
    }

    /// How many digits the player has entered.
    pub fn entered(&self) -> (count: usize)
        requires
            self.wf(),
        ensures
            count == filled(self.position()) - filled(self.task().clues()),
    {
        proof {
            lemma_filled_extends(self.position(), self.task().clues(), 81);
        }
        self.board.filled() - self.puzzle.given_count()
    }

    /// How many cells are still empty.
    pub fn remaining(&self) -> (count: usize)
        requires
            self.wf(),
        ensures
            count == empties(self.position()),
    {
        81 - self.board.filled()
    }

    /// Whether the board is a finished, legal Sudoku.
    pub fn is_solved(&self) -> (done: bool)
        requires
            self.wf(),
        ensures
            done == solved(self.position()),
    {
        self.board.is_solved()
    }

    /// How many times this game has changed.
    ///
    /// An application persists on a change and not on a selection; comparing
    /// this before and after a tap is that question.
    pub fn revision(&self) -> (revision: u64)
        ensures
            revision == self.changes(),
    {
        self.revision
    }

    /// Enters `digit` in `cell`.
    ///
    /// A digit that breaks no constraint is accepted even when it is not the
    /// digit the solution has there: a wrong-but-legal guess is part of playing
    /// Sudoku rather than a bug to be prevented.
    ///
    /// # Errors
    ///
    /// [`MoveError::Solved`] once the puzzle is finished, [`MoveError::Given`]
    /// for one of the puzzle's own clues, and [`MoveError::Conflict`] when the
    /// digit is already in that row, column or block, naming the first cell
    /// that holds it. A refused move changes nothing.
    pub fn set(&mut self, cell: Cell, digit: Digit) -> (outcome: Result<(), MoveError>)
        requires
            old(self).wf(),
            cell.wf(),
            digit.wf(),
            entry_verdict(old(self).state(), cell@, digit@) is Ok ==> rewritten(
                old(self).state(),
                cell@,
                digit@,
            ).changes <= u64::MAX,
        ensures
            final(self).wf(),
            outcome == entry_verdict(old(self).state(), cell@, digit@),
            outcome matches Err(MoveError::Conflict { with }) ==> with.wf() && is_first_conflict(
                old(self).position(),
                cell@,
                digit@,
                with@,
            ),
            outcome is Ok ==> final(self).state() == rewritten(old(self).state(), cell@, digit@),
            outcome is Err ==> *final(self) == *old(self),
    {
        let ghost before = self.position();
        proof {
            lemma_grid_is_board(self.board);
        }
        if self.is_solved() {
            return Err(MoveError::Solved);
        }
        if self.is_given(cell) {
            return Err(MoveError::Given);
        }
        let previous = self.board.get(cell);
        if let Some(held) = previous {
            if held == digit {
                assert(before.update(cell@, digit@) =~= before);
                return Ok(());
            }
        }
        // Checked against a board with the cell emptied, so replacing a digit
        // never conflicts with the digit being replaced.
        self.board.set(cell, None);
        let ghost emptied = self.position();
        if let Some(with) = self.board.conflict(cell, digit) {
            self.board.set(cell, previous);
            proof {
                assert(self.board@ =~= before);
                lemma_grid_by_view(self.board, old(self).board);
                assert(are_peers(cell@, with@));
                assert(emptied[with@] == before[with@]);
                assert forall|j: int| 0 <= j < with@ && #[trigger] are_peers(cell@, j) implies
                    before[j] != digit@ by {
                    assert(emptied[j] == before[j]);
                }
                assert(is_first_conflict(before, cell@, digit@, with@));
                lemma_first_conflict(before, cell@, digit@, with@);
            }
            return Err(MoveError::Conflict { with });
        }
        proof {
            assert forall|j: int| 0 <= j < 81 && #[trigger] are_peers(cell@, j) implies before[j]
                != digit@ by {
                assert(emptied[j] == before[j]);
            }
            lemma_lift_legal(before, cell@);
            lemma_place_legal(emptied, cell@, digit@);
        }
        self.board.set(cell, Some(digit));
        self.revision = self.revision + 1;
        assert(self.board@ =~= before.update(cell@, digit@));
        Ok(())
    }

    /// Empties `cell`.
    ///
    /// # Errors
    ///
    /// [`MoveError::Solved`] once the puzzle is finished, and
    /// [`MoveError::Given`] for one of the puzzle's own clues. Clearing an
    /// already-empty cell succeeds and changes nothing.
    pub fn clear(&mut self, cell: Cell) -> (outcome: Result<(), MoveError>)
        requires
            old(self).wf(),
            cell.wf(),
            clear_verdict(old(self).state(), cell@) is Ok ==> rewritten(
                old(self).state(),
                cell@,
                0,
            ).changes <= u64::MAX,
        ensures
            final(self).wf(),
            outcome == clear_verdict(old(self).state(), cell@),
            outcome is Ok ==> final(self).state() == rewritten(old(self).state(), cell@, 0),
            outcome is Err ==> *final(self) == *old(self),
    {
        let ghost before = self.position();
        if self.is_solved() {
            return Err(MoveError::Solved);
        }
        if self.is_given(cell) {
            return Err(MoveError::Given);
        }
        if self.board.get(cell).is_none() {
            assert(before.update(cell@, 0) =~= before);
            return Ok(());
        }
        proof {
            lemma_lift_legal(before, cell@);
        }
        self.board.set(cell, None);
        self.revision = self.revision + 1;
        Ok(())
    }

    /// Where the generator stream has got to, for the save format.
    pub fn rng_state(&self) -> (state: u64)
        ensures
            state == self.stream(),
    {
        self.rng.state()
    }

    /// Rebuilds a game from a save file's parts.
    pub fn restore(puzzle: Puzzle, board: Grid, rng_state: u64) -> (game: Self)
        requires
            puzzle.wf(),
            board.wf(),
            legal(board@),
            extends(board@, puzzle.clues()),
        ensures
            game.wf(),
            game.task() == puzzle,
            game.position() == board@,
            game.stream() == rng_state,
            game.changes() == 0,
    {
        Self { puzzle, board, rng: Rng::new(rng_state), revision: 0 }
    }
}

/// The clues of a board that has a solution break no constraint.
pub proof fn lemma_clues_legal(clues: Seq<int>, answer: Seq<int>)
    requires
        is_solution(answer, clues),
    ensures
        legal(clues),
{
    assert forall|i: int, j: int|
        0 <= i < 81 && 0 <= j < 81 && #[trigger] are_peers(i, j) && clues[i] != 0 implies clues[i]
        != clues[j] by {
        assert(answer[i] != answer[j]);
    }
}

proof fn lemma_filled_extends(t: Seq<int>, s: Seq<int>, n: int)
    requires
        extends(t, s),
        0 <= n <= 81,
    ensures
        filled_before(t, n) >= filled_before(s, n),
    decreases n,
{
    if n > 0 {
        lemma_filled_extends(t, s, n - 1);
        if s[n - 1] != 0 {
            assert(t[n - 1] == s[n - 1]);
        }
    }
}

/// What was given, what was entered and what is left are the whole grid.
pub proof fn law_cells_add_up(game: Game)
    requires
        game.wf(),
    ensures
        filled(game.task().clues()) + (filled(game.position()) - filled(game.task().clues()))
            + empties(game.position()) == 81,
        filled(game.task().clues()) <= filled(game.position()),
{
    lemma_filled_extends(game.position(), game.task().clues(), 81);
    lemma_filled_bound(game.position(), 81);
}

/// The digit the solution has is never refused: on a board that agrees with
/// the solution so far, it fits any cell it is not already in, and the board
/// goes on agreeing with the solution.
pub proof fn law_solution_is_accepted(game: Game, cell: Cell)
    requires
        game.wf(),
        cell.wf(),
        extends(game.task().answer(), game.position()),
    ensures
        fits(game.position(), cell@, game.task().answer()[cell@]),
        extends(
            game.task().answer(),
            game.position().update(cell@, game.task().answer()[cell@]),
        ),
{
    let (answer, s) = (game.task().answer(), game.position());
    assert forall|j: int| 0 <= j < 81 && #[trigger] are_peers(cell@, j) implies s[j]
        != answer[cell@] by {
        assert(answer[cell@] != answer[j]);
        assert(answer[cell@] != 0);
    }
    let t = s.update(cell@, answer[cell@]);
    assert forall|j: int| 0 <= j < 81 && #[trigger] t[j] != 0 implies answer[j] == t[j] by {
        if j != cell@ {
            assert(s[j] != 0);
        }
    }
}

/// Filling in the solution to the end solves the puzzle.
pub proof fn law_filled_in_solution_is_solved(game: Game)
    requires
        game.wf(),
        extends(game.task().answer(), game.position()),
        full(game.position()),
    ensures
        game.position() == game.task().answer(),
        solved(game.position()),
{
    let (answer, s) = (game.task().answer(), game.position());
    assert forall|i: int| 0 <= i < 81 implies s[i] == answer[i] by {
        assert(s[i] != 0);
    }
    assert(s =~= answer);
}

/// Where the clues have one solution, a solved board is that solution.
pub proof fn law_solved_board_is_the_answer(game: Game)
    requires
        game.wf(),
        unique(game.task().clues()),
        solved(game.position()),
    ensures
        game.position() == game.task().answer(),
{
    let (clues, answer, s) = (game.task().clues(), game.task().answer(), game.position());
    lemma_grid_is_board(game.board);
    lemma_grid_is_board(game.puzzle.givens);
    crate::sudoku_rules::model::lemma_solutions_finite(clues);
    assert(solutions_of(clues).contains(answer));
    assert(solutions_of(clues).contains(s));
    if s != answer {
        let rest = solutions_of(clues).remove(answer);
        assert(rest.contains(s));
        assert(rest.len() == 0);
    }
}

} // verus!
