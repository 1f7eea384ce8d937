//! The save format: the puzzle, the board, and where the generator stream got
//! to. Four strings and a number.
//!
//! A Sudoku's state is the grid, and the givens cannot be derived from
//! anything smaller than themselves. Three 81-character lines are the whole
//! state, are readable by eye, and are validated on the way back in.

use vstd::prelude::*;
use vstd::string::*;

use crate::sudoku_rules::game::{renewed, Game, GameState};
use crate::sudoku_rules::generate::{
    first_mismatch, is_first_mismatch, law_generation_deterministic, law_slugs_distinct,
    lemma_first_mismatch, mismatch_message, unsolved_message, Difficulty, Puzzle,
};
use crate::sudoku_rules::grid::{
    board_of_line, is_line, law_line_round_trip, lemma_grid_by_view, lemma_grid_is_board, line_of,
    Grid,
};
use crate::sudoku_rules::model::{extends, legal, solved};
use crate::sudoku_rules::types::{cell_name, Cell};
use crate::text::push_text;

verus! {

/// What a save file holds.
#[derive(Debug)]
pub struct SavedPuzzle {
    /// The level's spelling in the save file.
    pub difficulty: String,
    /// Where the generator stream had got to, so the next puzzle is the next
    /// one and not a repeat.
    pub stream: u64,
    /// The puzzle's clues, 81 characters.
    pub givens: String,
    /// Its solution, 81 characters.
    pub solution: String,
    /// The board as it stands, givens included, 81 characters.
    pub board: String,
}

/// Whether some level is spelled like this.
pub open spec fn is_level(text: Seq<char>) -> bool {
    exists|level: Difficulty| #[trigger] level.slug_text() == text
}

/// The level spelled like this.
pub open spec fn level_of(text: Seq<char>) -> Difficulty {
    choose|level: Difficulty| #[trigger] level.slug_text() == text
}

/// What is said of a line that is no grid.
pub open spec fn not_cells_message(what: Seq<char>) -> Seq<char> {
    "the "@ + what + " are not 81 valid cells"@
}

/// What is wrong with a save, or `None` where it can be played. The checks
/// stand in the order in which they are made, so the first failure is the one
/// that is reported.
pub open spec fn rebuild_failure(saved: SavedPuzzle) -> Option<Seq<char>> {
    let givens = board_of_line(saved.givens@);
    let solution = board_of_line(saved.solution@);
    let board = board_of_line(saved.board@);
    if !is_level(saved.difficulty@) {
        Some("`"@ + saved.difficulty@ + "` is not a difficulty"@)
    } else if !is_line(saved.givens@) {
        Some(not_cells_message("givens"@))
    } else if !is_line(saved.solution@) {
        Some(not_cells_message("solution"@))
    } else if !is_line(saved.board@) {
        Some(not_cells_message("board"@))
    } else if !solved(solution) {
        Some(unsolved_message())
    } else if !extends(solution, givens) {
        Some(mismatch_message(first_mismatch(givens, solution)))
    } else if !extends(board, givens) {
        Some("the board does not hold the given at "@ + cell_name(first_mismatch(givens, board)))
    } else if !legal(board) {
        Some("the board breaks a row, column or block constraint"@)
    } else {
        None
    }
}

/// `saved` is what saving `game` writes.
pub open spec fn records(saved: SavedPuzzle, game: Game) -> bool {
    &&& saved.difficulty@ == game.task().level().slug_text()
    &&& saved.stream == game.stream()
    &&& saved.givens@ == line_of(game.task().clues())
    &&& saved.solution@ == line_of(game.task().answer())
    &&& saved.board@ == line_of(game.position())
}

/// `game` is what loading `saved` gives.
pub open spec fn rebuilt_from(game: Game, saved: SavedPuzzle) -> bool {
    &&& game.wf()
    &&& game.task().level() == level_of(saved.difficulty@)
    &&& game.task().clues() == board_of_line(saved.givens@)
    &&& game.task().answer() == board_of_line(saved.solution@)
    &&& game.position() == board_of_line(saved.board@)
    &&& game.stream() == saved.stream
    &&& game.changes() == 0
}

/// What to write to save `game`.
pub fn saved_puzzle(game: &Game) -> (saved: SavedPuzzle)
    requires
        game.wf(),
    ensures
        records(saved, *game),
{
    SavedPuzzle {
        difficulty: game.difficulty().slug().to_owned(),
        stream: game.rng_state(),
        givens: game.puzzle().givens().to_line(),
        solution: game.puzzle().solution().to_line(),
        board: game.board().to_line(),
    }
}

/// Turns a parsed save back into a game, or says what is wrong with it.
pub fn rebuild(saved: &SavedPuzzle) -> (game: Result<Game, String>)
    ensures
        game is Ok <==> rebuild_failure(*saved) is None,
        game is Err ==> rebuild_failure(*saved) == Some(game->Err_0@),
        game is Ok ==> rebuilt_from(game->Ok_0, *saved),
{
    let difficulty = match Difficulty::parse(saved.difficulty.as_str()) {
        Some(level) => level,
        None => {
            let mut reason = "`".to_owned();
            push_text(&mut reason, saved.difficulty.as_str());
            push_text(&mut reason, "` is not a difficulty");
            return Err(reason);
        },
    };
    proof {
        let level = level_of(saved.difficulty@);
        assert(difficulty.slug_text() == saved.difficulty@);
        assert(level.slug_text() == saved.difficulty@);
        law_slugs_distinct(level, difficulty);
    }
    let givens = match grid(saved.givens.as_str(), "givens") {
        Ok(grid) => grid,
        Err(reason) => {
            return Err(reason);
        },
    };
    let solution = match grid(saved.solution.as_str(), "solution") {
        Ok(grid) => grid,
        Err(reason) => {
            return Err(reason);
        },
    };
    let board = match grid(saved.board.as_str(), "board") {
        Ok(grid) => grid,
        Err(reason) => {
            return Err(reason);
        },
    };
    proof {
        lemma_grid_is_board(solution);
    }
    let puzzle = match Puzzle::from_parts(givens, solution, difficulty) {
        Ok(puzzle) => puzzle,
        Err(reason) => {
            return Err(reason);
        },
    };

    // The board must be the givens plus legal entries: a save that dropped a
    // clue, or invented one, is not this puzzle any more.
    for index in 0..81usize
        invariant
            givens.wf(),
            board.wf(),
            is_level(saved.difficulty@),
            is_line(saved.givens@),
            is_line(saved.solution@),
            is_line(saved.board@),
            givens@ == board_of_line(saved.givens@),
            board@ == board_of_line(saved.board@),
            solved(board_of_line(saved.solution@)),
            extends(board_of_line(saved.solution@), givens@),
            forall|j: int|
                0 <= j < index && #[trigger] givens@[j] != 0 ==> givens@[j] == board@[j],
    {
        let cell = Cell::at(index);
        if let Some(given) = givens.get(cell) {
            if board.get(cell) != Some(given) {
                let mut reason = "the board does not hold the given at ".to_owned();
                push_text(&mut reason, cell.name().as_str());
                proof {
                    assert(is_first_mismatch(givens@, board@, index as int));
                    lemma_first_mismatch(givens@, board@, index as int);
                }
                return Err(reason);
            }
        }
    }
    if !board.is_valid() {
        return Err("the board breaks a row, column or block constraint".to_owned());
    }
    Ok(Game::restore(puzzle, board, saved.stream))
}

/// The grid that `line` writes out, or that `what` is none.
fn grid(line: &str, what: &str) -> (grid: Result<Grid, String>)
    ensures
        grid is Ok <==> is_line(line@),
        grid is Ok ==> grid->Ok_0.wf() && grid->Ok_0@ == board_of_line(line@),
        grid is Err ==> grid->Err_0@ == not_cells_message(what@),
{
    match Grid::parse_line(line) {
        Some(grid) => Ok(grid),
        None => {
            let mut reason = "the ".to_owned();
            push_text(&mut reason, what);
            push_text(&mut reason, " are not 81 valid cells");
            Err(reason)
        },
    }
}

/// Nothing is wrong with what saving a game writes: it can always be loaded.
pub proof fn law_saved_game_is_playable(game: Game, saved: SavedPuzzle)
    requires
        game.wf(),
        records(saved, game),
    ensures
        rebuild_failure(saved) is None,
{
    law_line_round_trip(game.puzzle.givens);
    law_line_round_trip(game.puzzle.solution);
    law_line_round_trip(game.board);
    assert(game.task().level().slug_text() == saved.difficulty@);
}

/// A saved game loads back to the same game: the puzzle, the board and the
/// generator's position come back as they were, so that the loaded game also
/// draws the same next puzzle.
pub proof fn law_saved_game_loads_back(game: Game, saved: SavedPuzzle, loaded: Game)
    requires
        game.wf(),
        records(saved, game),
        rebuilt_from(loaded, saved),
    ensures
        loaded.task() == game.task(),
        loaded.position() == game.position(),
        loaded.stream() == game.stream(),
        loaded.changes() == 0,
{
    law_line_round_trip(game.puzzle.givens);
    law_line_round_trip(game.puzzle.solution);
    law_line_round_trip(game.board);
    let level = level_of(saved.difficulty@);
    assert(game.task().level().slug_text() == saved.difficulty@);
    assert(level.slug_text() == saved.difficulty@);
    law_slugs_distinct(level, game.task().level());
    lemma_grid_by_view(loaded.puzzle.givens, game.puzzle.givens);
    lemma_grid_by_view(loaded.puzzle.solution, game.puzzle.solution);
}

/// A resumed game carries on the generator stream: whatever level is asked for
/// next, the loaded game and the saved one draw the same puzzle, and are left at
/// the same place in the stream.
pub proof fn law_resumed_game_draws_the_same_puzzle(
    game: Game,
    saved: SavedPuzzle,
    loaded: Game,
    level: Difficulty,
    next: GameState,
    resumed: GameState,
)
    requires
        game.wf(),
        records(saved, game),
        rebuilt_from(loaded, saved),
        renewed(game.state(), next, level),
        renewed(loaded.state(), resumed, level),
    ensures
        resumed.task == next.task,
        resumed.position == next.position,
        resumed.stream == next.stream,
{
    law_saved_game_loads_back(game, saved, loaded);
    law_generation_deterministic(level, game.stream(), next.task, resumed.task);
}

} // verus!
