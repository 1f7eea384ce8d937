//! What the Sudoku screen promises, tap by tap.
//!
//! Each law speaks of where a tap landed, of what the board holds before and
//! after, and of what of the glass is claimed.

use vstd::prelude::*;
use vstd::string::*;

use crate::action::Action;
use crate::sudoku::app::little_endian;
use crate::sudoku::layout::PadKey;
use crate::sudoku::screen::{
    claim_action, claim_damage, press_answers, pressed, status_line, Notice, Press, Region,
    SudokuHits, SudokuScreen,
};
use crate::sudoku_rules::error::MoveError;
use crate::sudoku_rules::game::{clear_verdict, entry_verdict, GameState};
use crate::sudoku_rules::generate::{drawn, Difficulty};
use crate::sudoku_rules::model::solved;
use crate::sudoku_rules::types::{cell_name, Cell, Digit};

verus! {

/// A tap on nothing.
pub open spec fn on_nothing() -> SudokuHits {
    SudokuHits {
        tap: true,
        home: false,
        new_puzzle: false,
        difficulty: false,
        key: None,
        cell: None,
    }
}

/// Two taps enter a digit: with nothing selected, a tap on a cell that is no clue
/// and then one on a digit write that digit in that cell and nothing anywhere
/// else, exactly where the rules accept it; a refused digit writes nothing and
/// says why.
pub proof fn law_two_taps_enter_a_digit(
    screen: SudokuScreen,
    game: GameState,
    cell: Cell,
    digit: Digit,
    j: int,
    most: int,
)
    requires
        screen.selected is None,
        !solved(game.position),
        game.position.len() == 81,
        cell.wf(),
        digit.wf(),
        game.task.clues()[cell@] == 0,
        0 <= j < 81,
    ensures
        ({
            let first = pressed(
                screen,
                game,
                SudokuHits { cell: Some(cell), ..on_nothing() },
                most,
            );
            let second = pressed(
                first.screen,
                first.game,
                SudokuHits { key: Some(PadKey::Digit(digit)), ..on_nothing() },
                most,
            );
            let verdict = entry_verdict(game, cell@, digit@);
            &&& first.screen.selected == Some(cell)
            &&& first.game == game
            &&& verdict is Ok ==> {
                &&& second.game.position[cell@] == digit@
                &&& j != cell@ ==> second.game.position[j] == game.position[j]
                &&& second.game.task == game.task
                &&& second.screen.notice is None
            }
            &&& verdict is Err ==> second.game == game && second.screen.selected == Some(cell)
            &&& verdict matches Err(MoveError::Conflict { with }) ==> second.screen.notice == Some(
                Notice::Conflict { with },
            )
        }),
{
}

/// The clear key empties the selected cell and no other, where the rules accept
/// it.
pub proof fn law_the_clear_key_empties_the_selection(
    screen: SudokuScreen,
    game: GameState,
    j: int,
    most: int,
)
    requires
        screen.selected is Some,
        screen.selected->0.wf(),
        !solved(game.position),
        game.position.len() == 81,
        0 <= j < 81,
    ensures
        ({
            let cell = screen.selected->0;
            let step = pressed(
                screen,
                game,
                SudokuHits { key: Some(PadKey::Clear), ..on_nothing() },
                most,
            );
            &&& clear_verdict(game, cell@) is Ok ==> step.game.position[cell@] == 0 && (j != cell@
                ==> step.game.position[j] == game.position[j]) && step.game.task == game.task
            &&& clear_verdict(game, cell@) is Err ==> step.game == game
        }),
{
}

/// A tap on a cell never writes: a clue stays unselected and is said to be one,
/// the selected cell is let go, and any other is selected in its place.
pub proof fn law_a_tap_on_a_cell_selects(
    screen: SudokuScreen,
    game: GameState,
    cell: Cell,
    most: int,
)
    requires
        !solved(game.position),
    ensures
        ({
            let step = pressed(
                screen,
                game,
                SudokuHits { cell: Some(cell), ..on_nothing() },
                most,
            );
            let clue = game.task.clues()[cell@] != 0;
            &&& step.game == game
            &&& clue ==> step.screen.selected == screen.selected && step.screen.notice == Some(
                Notice::Given,
            )
            &&& !clue && screen.selected == Some(cell) ==> step.screen.selected is None
            &&& !clue && screen.selected != Some(cell) ==> step.screen.selected == Some(cell)
            &&& !clue ==> step.screen.notice is None
            &&& step.screen.next_difficulty == screen.next_difficulty
        }),
{
}

/// A key without a selected cell writes nothing and asks for a cell.
pub proof fn law_a_key_needs_a_cell(
    screen: SudokuScreen,
    game: GameState,
    key: PadKey,
    most: int,
)
    requires
        screen.selected is None,
        !solved(game.position),
    ensures
        ({
            let step = pressed(screen, game, SudokuHits { key: Some(key), ..on_nothing() }, most);
            step.game == game && step.screen.notice == Some(Notice::NoSelection)
                && step.screen.selected is None
        }),
{
}

/// What a press claims covers what it changed: every cell whose digit or whose
/// selection differs, the status band where what it says of a refusal differs,
/// and the two footer actions where their words do. Only what is claimed needs a
/// new frame, and a new frame is asked for exactly where something is claimed.
pub proof fn law_claims_cover_what_changed(
    screen: SudokuScreen,
    game: GameState,
    hits: SudokuHits,
    most: int,
    cell: Cell,
)
    requires
        game.position.len() == 81,
        screen.wf(),
        hits.wf(),
        !hits.confirms(screen),
        cell.wf(),
    ensures
        ({
            let step = pressed(screen, game, hits, most);
            let claims = |region: Region|
                step.damage is None || step.damage->0.contains(region);
            let was = screen.selected == Some(cell);
            let is = step.screen.selected == Some(cell);
            &&& step.game.position[cell@] != game.position[cell@] || was != is ==> claims(
                Region::Cell(cell),
            )
            &&& step.screen.notice != screen.notice ==> claims(Region::Status)
            &&& step.screen.new_puzzle_armed != screen.new_puzzle_armed ==> claims(
                Region::NewPuzzle,
            )
            &&& step.screen.next_difficulty != screen.next_difficulty ==> claims(
                Region::Difficulty,
            )
            &&& step.action == Action::Nothing ==> step.damage is Some && step.damage->0.len() == 0
            &&& step.action == Action::Redraw ==> step.damage is None || step.damage->0.len() > 0
            &&& step.damage is Some ==> step.damage->0.len() <= most || step.damage->0.len() == 0
            &&& step.action == Action::Redraw || step.action == Action::Nothing || step.action
                == Action::Home
        }),
{
    let step = pressed(screen, game, hits, most);
    let none = Seq::<Region>::empty();
    let disarmed = if screen.new_puzzle_armed {
        none.push(Region::NewPuzzle)
    } else {
        none
    };
    assert(screen.new_puzzle_armed ==> disarmed[0] == Region::NewPuzzle);
    let armed = none.push(Region::NewPuzzle);
    assert(armed[0] == Region::NewPuzzle);
    let levelled = disarmed.push(Region::Difficulty);
    assert(levelled[disarmed.len() as int] == Region::Difficulty);
    assert(screen.new_puzzle_armed ==> levelled[0] == Region::NewPuzzle);
    let told = disarmed.push(Region::Status);
    assert(told[disarmed.len() as int] == Region::Status);
    assert(screen.new_puzzle_armed ==> told[0] == Region::NewPuzzle);
    assert(told.contains(Region::Status));
    assert(screen.new_puzzle_armed ==> disarmed.contains(Region::NewPuzzle) && told.contains(
        Region::NewPuzzle,
    ) && levelled.contains(Region::NewPuzzle));
    if screen.selected is Some {
        lemma_pushed(disarmed, Region::Cell(screen.selected->0));
        lemma_pushed(told, Region::Cell(screen.selected->0));
        let left = disarmed.push(Region::Cell(screen.selected->0));
        let told_left = told.push(Region::Cell(screen.selected->0));
        if hits.cell is Some {
            lemma_pushed(left, Region::Cell(hits.cell->0));
            lemma_pushed(told_left, Region::Cell(hits.cell->0));
        }
    }
    if hits.cell is Some {
        lemma_pushed(disarmed, Region::Cell(hits.cell->0));
        lemma_pushed(told, Region::Cell(hits.cell->0));
    }
    lemma_same_cell(cell, screen, hits);
}

/// What is claimed stays claimed as more is.
proof fn lemma_pushed(regions: Seq<Region>, region: Region)
    ensures
        regions.push(region).contains(region),
        forall|other: Region| #[trigger]
            regions.contains(other) ==> regions.push(region).contains(other),
{
    let more = regions.push(region);
    assert(more[regions.len() as int] == region);
    assert forall|other: Region| #[trigger] regions.contains(other) implies more.contains(
        other,
    ) by {
        let k = choose|k: int| 0 <= k < regions.len() && regions[k] == other;
        assert(more[k] == other);
    }
}

proof fn lemma_same_cell(cell: Cell, screen: SudokuScreen, hits: SudokuHits)
    requires
        cell.wf(),
        screen.wf(),
        hits.wf(),
    ensures
        screen.selected is Some && screen.selected->0@ == cell@ ==> screen.selected->0 == cell,
        hits.cell is Some && hits.cell->0@ == cell@ ==> hits.cell->0 == cell,
{
}

/// More regions than the platform takes at once are claimed as everything, and
/// no more than it takes as themselves.
pub proof fn law_too_many_regions_are_everything(changed: Seq<Region>, most: int)
    requires
        most >= 0,
    ensures
        claim_damage(changed, most) is None <==> changed.len() > most,
        claim_damage(changed, most) is Some ==> claim_damage(changed, most)->0 == changed,
        claim_action(changed) == Action::Redraw <==> changed.len() > 0,
        claim_action(changed) == Action::Nothing <==> changed.len() == 0,
{
}

/// A confirmed new puzzle is the next of the game's own stream at the level
/// shown, with nothing entered, selected or said, and the level stays what it
/// was.
pub proof fn law_a_confirmed_puzzle_is_the_next(
    screen: SudokuScreen,
    game: GameState,
    hits: SudokuHits,
    most: int,
    next_screen: SudokuScreen,
    next_game: GameState,
    press: Press,
)
    requires
        hits.tap && !hits.home && hits.new_puzzle && screen.new_puzzle_armed,
        press_answers(screen, game, hits, most, next_screen, next_game, press),
    ensures
        next_game.task.level() == screen.next_difficulty,
        next_game.position == next_game.task.clues(),
        next_game.task.clues() == drawn(screen.next_difficulty, game.stream).givens,
        next_game.stream == drawn(screen.next_difficulty, game.stream).state,
        next_screen.selected is None,
        next_screen.notice is None,
        !next_screen.new_puzzle_armed,
        next_screen.next_difficulty == screen.next_difficulty,
        press.action == Action::Redraw,
        press.damage@ is None,
{
}

/// The level action steps to the next level and round again after the last, and
/// leaves the puzzle on screen alone.
pub proof fn law_the_level_action_steps_on(screen: SudokuScreen, game: GameState, most: int)
    ensures
        ({
            let hits = SudokuHits { difficulty: true, ..on_nothing() };
            let one = pressed(screen, game, hits, most);
            let two = pressed(one.screen, game, hits, most);
            let three = pressed(two.screen, game, hits, most);
            &&& one.game == game
            &&& one.screen.next_difficulty != screen.next_difficulty
            &&& two.screen.next_difficulty != screen.next_difficulty
            &&& two.screen.next_difficulty != one.screen.next_difficulty
            &&& three.screen.next_difficulty == screen.next_difficulty
            &&& screen.next_difficulty == Difficulty::Easy ==> one.screen.next_difficulty
                == Difficulty::Medium
        }),
{
}

/// The status line says that the puzzle is solved before anything else, then
/// what was refused, naming the very cell in the way, and then what to do next.
pub proof fn law_the_status_line_tells_what_matters(screen: SudokuScreen, position: Seq<int>)
    ensures
        solved(position) ==> status_line(screen, position) == "SOLVED"@,
        !solved(position) ==> match screen.notice {
            Some(Notice::NoSelection) => status_line(screen, position) == "TAP A CELL FIRST"@,
            Some(Notice::Given) => status_line(screen, position) == "THAT CELL IS A GIVEN"@,
            Some(Notice::Conflict { with }) => status_line(screen, position) == "ALREADY IN "@
                + cell_name(with@),
            None => status_line(screen, position) == (if screen.selected is Some {
                "TAP A DIGIT"@
            } else {
                "TAP A CELL, THEN A DIGIT"@
            }),
        },
{
}

/// Bytes are read the lowest first: a byte counts what it holds, and 256 times
/// what the one before it would in its place.
pub proof fn law_seeds_are_read_lowest_byte_first(bytes: Seq<u8>, more: u8)
    ensures
        little_endian(Seq::empty()) == 0,
        little_endian(seq![more]) == more,
        little_endian(seq![more] + bytes) == more + 256 * little_endian(bytes),
{
    assert((seq![more] + bytes).drop_first() =~= bytes);
    assert(seq![more].drop_first() =~= Seq::<u8>::empty());
    assert(little_endian(Seq::empty()) == 0);
}

} // verus!
