use paperclip::sudoku_rules::error::MoveError;
use paperclip::sudoku_rules::game::Game;
use paperclip::sudoku_rules::generate::{Difficulty, Puzzle};
use paperclip::sudoku_rules::grid::Grid;
use paperclip::sudoku_rules::rng::Rng;
use paperclip::sudoku_rules::save::{rebuild, saved_puzzle, SavedPuzzle};
use paperclip::sudoku_rules::solve::{complete, is_unique, solutions, solve, Search};
use paperclip::sudoku_rules::types::{Cell, Digit};

const PUZZLE: &str =
    "53..7....6..195....98....6.8...6...34..8.3..17...2...6.6....28....419..5....8..79";
const SOLUTION: &str =
    "534678912672195348198342567859761423426853791713924856961537284287419635345286179";

fn grid(line: &str) -> Grid {
    Grid::parse_line(line).expect("a valid grid line")
}

fn cell(row: u8, column: u8) -> Cell {
    Cell::new(row, column).expect("a cell on the grid")
}

// --- digits, cells and grids ------------------------------------------------

#[test]
fn a_digit_is_one_through_nine_and_nothing_else() {
    assert_eq!(Digit::new(1).map(Digit::value), Some(1));
    assert_eq!(Digit::new(9).map(Digit::value), Some(9));
    assert_eq!(Digit::new(0), None);
    assert_eq!(Digit::new(10), None);
    assert_eq!(Digit::all().len(), 9);
    assert_eq!(Digit::all()[0], Digit::new(1).unwrap());
    assert_eq!(Digit::all()[8].text(), "9");
}

#[test]
fn a_digits_mask_is_its_own_bit() {
    assert_eq!(Digit::new(1).unwrap().mask(), 0b10);
    assert_eq!(Digit::new(9).unwrap().mask(), 0b10_0000_0000);
}

#[test]
fn there_are_eighty_one_cells_and_the_index_round_trips() {
    let all: Vec<_> = Cell::all();
    assert_eq!(all.len(), 81);
    for cell in all {
        assert_eq!(Cell::from_index(cell.index()), Some(cell));
    }
    assert_eq!(Cell::from_index(81), None);
    assert_eq!(Cell::new(9, 0), None);
    assert_eq!(Cell::new(0, 9), None);
}

#[test]
fn blocks_are_numbered_in_reading_order() {
    assert_eq!(Cell::new(0, 0).unwrap().block(), 0);
    assert_eq!(Cell::new(0, 8).unwrap().block(), 2);
    assert_eq!(Cell::new(4, 4).unwrap().block(), 4);
    assert_eq!(Cell::new(8, 0).unwrap().block(), 6);
    assert_eq!(Cell::new(8, 8).unwrap().block(), 8);
}

#[test]
fn cells_are_named_one_based_row_first() {
    assert_eq!(Cell::new(0, 0).unwrap().name(), "R1C1");
    assert_eq!(Cell::new(3, 6).unwrap().name(), "R4C7");
    assert_eq!(Cell::new(8, 8).unwrap().name(), "R9C9");
}

#[test]
fn every_cell_has_exactly_twenty_peers() {
    for cell in Cell::all() {
        let peers: Vec<_> = cell.peers();
        assert_eq!(peers.len(), 20, "{}", cell.name());
        assert!(!peers.contains(&cell), "a cell is not its own peer");
        assert!(peers.iter().all(|peer| peer.row() == cell.row()
            || peer.column() == cell.column()
            || peer.block() == cell.block()));
    }
}

#[test]
fn a_conflict_names_the_cell_that_already_holds_the_digit() {
    let mut grid = Grid::empty();
    let five = Digit::new(5).unwrap();
    let held = Cell::new(0, 0).unwrap();
    grid.set(held, Some(five));

    assert_eq!(grid.conflict(Cell::new(0, 8).unwrap(), five), Some(held));
    assert_eq!(grid.conflict(Cell::new(8, 0).unwrap(), five), Some(held));
    assert_eq!(grid.conflict(Cell::new(1, 1).unwrap(), five), Some(held));
    assert_eq!(grid.conflict(Cell::new(4, 4).unwrap(), five), None);
    assert!(grid.accepts(Cell::new(4, 4).unwrap(), five));
}

#[test]
fn the_first_conflict_in_reading_order_is_the_one_named() {
    let mut grid = Grid::empty();
    let five = Digit::new(5).unwrap();
    grid.set(cell(8, 4), Some(five));
    grid.set(cell(4, 8), Some(five));
    assert_eq!(grid.conflict(cell(4, 4), five), Some(cell(4, 8)));
}

#[test]
fn an_empty_grid_is_valid_but_not_solved() {
    let grid = Grid::empty();
    assert!(grid.is_valid());
    assert!(!grid.is_complete());
    assert!(!grid.is_solved());
    assert_eq!(grid.filled(), 0);
}

#[test]
fn a_duplicate_in_any_unit_makes_a_grid_invalid() {
    let five = Digit::new(5).unwrap();
    for (row, column) in [(0, 8), (8, 0), (1, 1)] {
        let mut grid = Grid::empty();
        grid.set(Cell::new(0, 0).unwrap(), Some(five));
        grid.set(Cell::new(row, column).unwrap(), Some(five));
        assert!(!grid.is_valid(), "duplicate at R{row}C{column} accepted");
    }
}

#[test]
fn a_grid_round_trips_through_its_line_form() {
    let grid = Grid::parse_line(PUZZLE).expect("a published puzzle parses");
    assert_eq!(grid.to_line(), PUZZLE);
    assert_eq!(grid.filled(), 30);
    assert!(grid.is_valid());
    assert_eq!(
        grid.get(Cell::new(0, 0).unwrap()),
        Some(Digit::new(5).unwrap())
    );
    assert_eq!(grid.get(Cell::new(0, 2).unwrap()), None);
}

#[test]
fn a_line_that_is_not_a_grid_is_refused_rather_than_padded() {
    assert!(Grid::parse_line("").is_none());
    assert!(Grid::parse_line(&".".repeat(80)).is_none());
    assert!(Grid::parse_line(&".".repeat(82)).is_none());
    assert!(Grid::parse_line(&"x".repeat(81)).is_none());
    // `0` is the other spelling of an empty cell, and is accepted.
    assert_eq!(Grid::parse_line(&"0".repeat(81)), Some(Grid::empty()));
}

// --- the stream -------------------------------------------------------------

#[test]
fn the_same_seed_is_the_same_stream() {
    let mut one = Rng::new(7);
    let mut two = Rng::new(7);
    let mut three = Rng::new(8);
    let from_one: Vec<_> = (0..8).map(|_| one.next_u64()).collect();
    let from_two: Vec<_> = (0..8).map(|_| two.next_u64()).collect();
    let from_three: Vec<_> = (0..8).map(|_| three.next_u64()).collect();
    assert_eq!(from_one, from_two);
    assert_ne!(from_one, from_three);
}

#[test]
fn the_stream_is_splitmix64() {
    let mut rng = Rng::new(1_234_567);
    assert_eq!(rng.next_u64(), 6_457_827_717_110_365_317);
    assert_eq!(rng.next_u64(), 3_203_168_211_198_807_973);
    assert_eq!(rng.next_u64(), 9_817_491_932_198_370_423);
}

#[test]
fn a_stream_can_be_resumed_from_its_recorded_state() {
    let mut original = Rng::new(42);
    let _ = original.next_u64();
    let _ = original.next_u64();
    let mut resumed = Rng::new(original.state());
    assert_eq!(original.next_u64(), resumed.next_u64());
}

#[test]
fn draws_stay_below_their_bound_and_reach_both_ends() {
    let mut rng = Rng::new(1);
    let mut low = false;
    let mut high = false;
    for _ in 0..1_000 {
        let value = rng.below(9);
        assert!(value < 9);
        low |= value == 0;
        high |= value == 8;
    }
    assert!(low && high, "1000 draws from 0..9 covered neither end");
    assert_eq!(rng.below(0), 0, "a zero bound has no answer but zero");
    assert_eq!(rng.below(1), 0);
}

#[test]
fn a_draw_is_scaled_by_the_upper_half_of_a_product() {
    let mut rng = Rng::new(1_234_567);
    let mut copy = Rng::new(1_234_567);
    let bits = copy.next_u64();
    assert_eq!(rng.below(1_000), ((bits as u128 * 1_000) >> 64) as usize);
}

#[test]
fn a_shuffle_permutes_rather_than_replaces() {
    let mut rng = Rng::new(99);
    let mut items: Vec<usize> = (0..81).collect();
    rng.shuffle(&mut items);
    assert_ne!(items, (0..81).collect::<Vec<_>>(), "nothing moved");
    let mut sorted = items.clone();
    sorted.sort_unstable();
    assert_eq!(sorted, (0..81).collect::<Vec<_>>(), "items were lost");
}

#[test]
fn a_shuffle_swaps_from_the_last_item_down() {
    let mut rng = Rng::new(5);
    let mut copy = Rng::new(5);
    let mut items = vec!['a', 'b', 'c', 'd'];
    let mut expected = items.clone();
    for index in (1..expected.len()).rev() {
        let other = copy.below(index + 1);
        expected.swap(index, other);
    }
    rng.shuffle(&mut items);
    assert_eq!(items, expected);
    assert_eq!(rng.state(), copy.state());
}

// --- solving ----------------------------------------------------------------

#[test]
fn a_published_puzzle_solves_to_its_published_solution() {
    let solved = solve(&grid(PUZZLE)).expect("it solves");
    assert_eq!(solved.to_line(), SOLUTION);
    assert!(solved.is_solved());
}

#[test]
fn a_published_puzzle_has_exactly_one_solution() {
    assert_eq!(solutions(&grid(PUZZLE), 2), 1);
    assert!(is_unique(&grid(PUZZLE)));
}

#[test]
fn a_solved_grid_is_its_own_single_solution() {
    assert_eq!(solutions(&grid(SOLUTION), 2), 1);
    assert_eq!(
        solve(&grid(SOLUTION)).map(|solved| solved.to_line()),
        Some(SOLUTION.to_owned())
    );
}

#[test]
fn a_swappable_rectangle_has_two_solutions_and_is_not_reported_unique() {
    // Four cells at the corners of a rectangle whose two columns share a
    // block, holding two digits diagonally: emptying them leaves a grid that
    // can be filled either way round, and every other cell forced.
    let solved = grid(SOLUTION);
    let corners = Cell::all()
        .into_iter()
        .flat_map(|first| Cell::all().into_iter().map(move |second| (first, second)))
        .find(|(first, second)| {
            first.row() < second.row()
                && first.column() < second.column()
                && first.column() / 3 == second.column() / 3
                && solved.get(*first)
                    == solved.get(Cell::new(second.row(), second.column()).unwrap())
                && solved.get(Cell::new(first.row(), second.column()).unwrap())
                    == solved.get(Cell::new(second.row(), first.column()).unwrap())
        })
        .map(|(first, second)| {
            [
                first,
                Cell::new(first.row(), second.column()).unwrap(),
                Cell::new(second.row(), first.column()).unwrap(),
                second,
            ]
        })
        .expect("a full grid contains a swappable rectangle");

    let mut ambiguous = solved;
    for cell in corners {
        ambiguous.set(cell, None);
    }
    assert!(ambiguous.is_valid());
    assert_eq!(solutions(&ambiguous, 2), 2);
    assert!(!is_unique(&ambiguous));
}

#[test]
fn enough_clues_removed_always_costs_uniqueness() {
    let mut stripped = grid(SOLUTION);
    assert!(is_unique(&stripped));
    let lost = Cell::all().into_iter().position(|cell| {
        stripped.set(cell, None);
        !is_unique(&stripped)
    });
    assert!(
        lost.is_some(),
        "an empty grid was still reported as having one solution"
    );
}

#[test]
fn an_unsolvable_grid_reports_no_solutions_rather_than_looping() {
    // 1..8 are spoken for in the row and 9 is spoken for in the column.
    let mut stuck = Grid::empty();
    for column in 0..8u8 {
        stuck.set(Cell::new(0, column).unwrap(), Digit::new(column + 1));
    }
    stuck.set(Cell::new(1, 8).unwrap(), Digit::new(9));
    assert_eq!(solutions(&stuck, 2), 0);
    assert_eq!(solve(&stuck), None);
}

#[test]
fn an_already_invalid_grid_has_no_solutions() {
    let mut duplicated = Grid::empty();
    duplicated.set(Cell::new(0, 0).unwrap(), Digit::new(4));
    duplicated.set(Cell::new(0, 5).unwrap(), Digit::new(4));
    assert!(!duplicated.is_valid());
    assert_eq!(solutions(&duplicated, 2), 0);
    assert_eq!(solve(&duplicated), None);
}

#[test]
fn the_limit_is_respected_rather_than_counting_forever() {
    assert_eq!(solutions(&Grid::empty(), 5), 5);
    assert_eq!(solutions(&Grid::empty(), 1), 1);
    assert_eq!(solutions(&Grid::empty(), 0), 0);
}

#[test]
fn a_random_complete_grid_is_a_legal_finished_sudoku() {
    let mut rng = Rng::new(2026);
    let first = complete(&mut rng);
    assert!(first.is_solved());
    let second = complete(&mut rng);
    assert!(second.is_solved());
    assert_ne!(first, second, "the stream produced the same grid twice");
}

#[test]
fn a_complete_grid_is_deterministic_in_its_seed() {
    assert_eq!(
        complete(&mut Rng::new(11)).to_line(),
        complete(&mut Rng::new(11)).to_line()
    );
    assert_ne!(
        complete(&mut Rng::new(11)).to_line(),
        complete(&mut Rng::new(12)).to_line()
    );
}

#[test]
fn the_search_goes_to_the_tightest_cell_first() {
    let mut almost = grid(SOLUTION);
    almost.set(cell(0, 0), None);
    almost.set(cell(8, 8), None);
    let search = Search::load(&almost).expect("a legal grid");
    // Both holes have one candidate; the first in reading order is taken.
    assert_eq!(search.most_constrained(), Some((cell(0, 0), 1 << 5)));
    assert_eq!(search.grid().to_line(), almost.to_line());

    let full = Search::load(&grid(SOLUTION)).expect("a legal grid");
    assert_eq!(full.most_constrained(), None);
}

// --- generating -------------------------------------------------------------

#[test]
fn a_generated_puzzle_has_exactly_one_solution() {
    for (index, difficulty) in Difficulty::ALL.into_iter().enumerate() {
        let puzzle = Puzzle::generate(difficulty, 1_000 + index as u64);
        assert_eq!(
            solutions(puzzle.givens(), 2),
            1,
            "{} is not a unique puzzle",
            difficulty.label()
        );
    }
}

#[test]
fn a_generated_puzzles_solution_is_the_solution_of_its_givens() {
    let puzzle = Puzzle::generate(Difficulty::Medium, 7);
    assert!(puzzle.solution().is_solved());
    assert_eq!(solve(puzzle.givens()).as_ref(), Some(puzzle.solution()));
    for cell in Cell::all() {
        if let Some(digit) = puzzle.givens().get(cell) {
            assert_eq!(puzzle.solution().get(cell), Some(digit));
            assert!(puzzle.is_given(cell));
        } else {
            assert!(!puzzle.is_given(cell));
        }
    }
}

#[test]
fn fewer_givens_is_what_a_harder_level_means() {
    let mut counts = Vec::new();
    for difficulty in Difficulty::ALL {
        let puzzle = Puzzle::generate(difficulty, 4);
        let givens = puzzle.given_count();
        assert!(
            givens >= difficulty.target_givens(),
            "{} came out below its target: {givens}",
            difficulty.label()
        );
        assert!(
            givens <= difficulty.target_givens() + 8,
            "{} left {givens} clues, far above its {} target",
            difficulty.label(),
            difficulty.target_givens()
        );
        counts.push(givens);
    }
    assert!(
        counts[0] > counts[1],
        "easy should give more away: {counts:?}"
    );
    assert!(
        counts[1] > counts[2],
        "hard should give less away: {counts:?}"
    );
}

#[test]
fn a_puzzle_above_its_target_has_no_clue_to_spare() {
    for seed in 0..12 {
        let puzzle = Puzzle::generate(Difficulty::Hard, seed);
        if puzzle.given_count() > Difficulty::Hard.target_givens() {
            for cell in Cell::all() {
                if puzzle.is_given(cell) {
                    let mut less = *puzzle.givens();
                    less.set(cell, None);
                    assert!(!is_unique(&less), "{} was not needed", cell.name());
                }
            }
        }
    }
}

#[test]
fn generation_is_deterministic_in_its_seed() {
    let one = Puzzle::generate(Difficulty::Hard, 12_345);
    let again = Puzzle::generate(Difficulty::Hard, 12_345);
    let other = Puzzle::generate(Difficulty::Hard, 12_346);
    assert_eq!(one, again);
    assert_ne!(one.givens(), other.givens());
}

#[test]
fn seeds_open_their_grids_with_their_own_digits() {
    for difficulty in Difficulty::ALL {
        let opening = |seed| {
            let puzzle = Puzzle::generate(difficulty, seed);
            puzzle.solution().get(Cell::all()[0]).map(Digit::value)
        };
        assert_eq!(opening(12_345), Some(4));
        assert_eq!(opening(12_346), Some(6));
    }
}

#[test]
fn the_difficulty_labels_round_trip_and_cycle() {
    for difficulty in Difficulty::ALL {
        assert_eq!(Difficulty::parse(difficulty.slug()), Some(difficulty));
        assert!(!difficulty.label().is_empty());
    }
    assert_eq!(Difficulty::parse("impossible"), None);
    assert_eq!(Difficulty::Easy.next(), Difficulty::Medium);
    assert_eq!(Difficulty::Hard.next(), Difficulty::Easy);
    assert_eq!(Difficulty::Medium.label(), "MEDIUM");
    assert_eq!(Difficulty::Medium.target_givens(), 34);
}

#[test]
fn stored_parts_that_do_not_belong_together_are_refused() {
    let puzzle = Puzzle::generate(Difficulty::Easy, 3);
    let solution = *puzzle.solution();

    assert!(
        Puzzle::from_parts(*puzzle.givens(), solution, Difficulty::Easy).is_ok(),
        "its own parts are rejected"
    );

    // A solution with a hole in it is not a solution.
    let mut holed = solution;
    holed.set(Cell::new(0, 0).unwrap(), None);
    assert_eq!(
        Puzzle::from_parts(*puzzle.givens(), holed, Difficulty::Easy),
        Err("the stored solution is not a finished, legal grid".to_owned())
    );

    // A given that contradicts the solution is the corruption that matters.
    let mut lying = *puzzle.givens();
    let cell = Cell::all()
        .into_iter()
        .find(|cell| puzzle.is_given(*cell))
        .expect("a puzzle has givens");
    let wrong = Digit::all()
        .into_iter()
        .find(|digit| Some(*digit) != solution.get(cell))
        .expect("some other digit exists");
    lying.set(cell, Some(wrong));
    assert_eq!(
        Puzzle::from_parts(lying, solution, Difficulty::Easy),
        Err(format!(
            "the given at {} does not match the stored solution",
            cell.name()
        ))
    );

    assert!(Puzzle::from_parts(Grid::empty(), solution, Difficulty::Easy).is_ok());
}

// --- playing ----------------------------------------------------------------

fn started() -> Game {
    Game::start(Difficulty::Easy, 2_026)
}

/// The first cell the player is allowed to write in.
fn first_empty(game: &Game) -> Cell {
    Cell::all()
        .into_iter()
        .find(|cell| game.digit_at(*cell).is_none())
        .expect("a puzzle has empty cells")
}

#[test]
fn a_started_game_is_its_puzzles_givens_and_nothing_else() {
    let game = started();
    assert_eq!(game.board(), game.puzzle().givens());
    assert_eq!(game.entered(), 0);
    assert_eq!(game.remaining(), 81 - game.puzzle().given_count());
    assert!(!game.is_solved());
    assert_eq!(game.revision(), 0);
}

#[test]
fn a_given_cannot_be_overwritten_or_cleared() {
    let mut game = started();
    let given = Cell::all()
        .into_iter()
        .find(|cell| game.is_given(*cell))
        .expect("a puzzle has givens");
    let held = game.digit_at(given).expect("a given holds a digit");

    assert_eq!(
        game.set(given, Digit::new(1).unwrap()),
        Err(MoveError::Given)
    );
    assert_eq!(game.clear(given), Err(MoveError::Given));
    assert_eq!(game.digit_at(given), Some(held));
    assert_eq!(game.revision(), 0, "a refused move is not a change");
}

#[test]
fn an_invalid_placement_is_rejected_and_names_the_cell_in_the_way() {
    let mut game = started();
    let cell = first_empty(&game);
    let (digit, occupied) = Digit::all()
        .into_iter()
        .find_map(|digit| game.board().conflict(cell, digit).map(|with| (digit, with)))
        .expect("an empty cell has some digit ruled out");

    assert_eq!(
        game.set(cell, digit),
        Err(MoveError::Conflict { with: occupied })
    );
    assert_eq!(game.digit_at(cell), None);
    assert_eq!(game.revision(), 0);
    assert!(
        MoveError::Conflict { with: occupied }
            .message()
            .contains(&occupied.name()),
        "the message should name the cell"
    );
}

#[test]
fn a_legal_entry_lands_and_can_be_replaced_or_cleared() {
    let mut game = started();
    let cell = first_empty(&game);
    let first = Digit::all()
        .into_iter()
        .find(|digit| game.board().accepts(cell, *digit))
        .expect("something is placeable");

    game.set(cell, first).expect("a legal entry");
    assert_eq!(game.digit_at(cell), Some(first));
    assert_eq!(game.entered(), 1);
    assert_eq!(game.revision(), 1);

    // Re-entering the same digit is a no-op rather than a conflict with
    // itself, and does not count as a change.
    game.set(cell, first).expect("the same digit again");
    assert_eq!(game.revision(), 1);

    if let Some(second) = Digit::all()
        .into_iter()
        .find(|digit| *digit != first && game.board().accepts(cell, *digit))
    {
        game.set(cell, second).expect("replacing an entry");
        assert_eq!(game.digit_at(cell), Some(second));
    }

    game.clear(cell).expect("clearing an entry");
    assert_eq!(game.digit_at(cell), None);
    assert_eq!(game.entered(), 0);
    game.clear(cell).expect("clearing an empty cell is fine");
}

#[test]
fn filling_in_the_solution_is_recognised_as_solved_and_ends_the_game() {
    let mut game = started();
    let solution = *game.puzzle().solution();
    for cell in Cell::all() {
        if !game.is_given(cell) {
            let digit = solution.get(cell).expect("a solution is complete");
            game.set(cell, digit).expect("the solution is legal");
        }
    }

    assert!(game.is_solved());
    assert_eq!(game.remaining(), 0);
    assert_eq!(game.board(), &solution);

    let cell = Cell::all()
        .into_iter()
        .find(|cell| !game.is_given(*cell))
        .expect("a puzzle has non-given cells");
    assert_eq!(
        game.set(cell, Digit::new(1).unwrap()),
        Err(MoveError::Solved)
    );
    assert_eq!(game.clear(cell), Err(MoveError::Solved));
}

#[test]
fn a_new_puzzle_replaces_the_board_and_does_not_repeat_itself() {
    let mut game = started();
    let cell = first_empty(&game);
    let digit = Digit::all()
        .into_iter()
        .find(|digit| game.board().accepts(cell, *digit))
        .expect("something is placeable");
    game.set(cell, digit).expect("a legal entry");

    let first = *game.puzzle();
    game.new_puzzle(Difficulty::Hard);
    assert_ne!(game.puzzle(), &first, "the same puzzle came back");
    assert_eq!(game.difficulty(), Difficulty::Hard);
    assert_eq!(game.board(), game.puzzle().givens(), "entries carried over");
    assert_eq!(game.entered(), 0);

    let second = *game.puzzle();
    game.new_puzzle(Difficulty::Hard);
    assert_ne!(game.puzzle(), &second, "the stream did not advance");
}

#[test]
fn a_refused_move_says_why() {
    assert_eq!(MoveError::Solved.message(), "the puzzle is already solved");
    assert_eq!(
        MoveError::Given.message(),
        "that cell is one of the puzzle's givens"
    );
    assert_eq!(
        MoveError::Conflict { with: cell(2, 3) }.message(),
        "that digit is already in R3C4"
    );
}

// --- saving -----------------------------------------------------------------

/// A game with one digit entered, and the cell it went in.
fn played() -> (Game, Cell) {
    let mut game = Game::start(Difficulty::Medium, 555);
    let cell = first_empty(&game);
    let digit = Digit::all()
        .into_iter()
        .find(|digit| game.board().accepts(cell, *digit))
        .expect("something is placeable");
    game.set(cell, digit).expect("a legal entry");
    (game, cell)
}

#[test]
fn a_saved_game_loads_back_to_the_same_board() {
    let (game, cell) = played();
    let loaded = rebuild(&saved_puzzle(&game)).expect("load succeeds");

    assert_eq!(loaded.board(), game.board());
    assert_eq!(loaded.puzzle(), game.puzzle());
    assert_eq!(loaded.difficulty(), game.difficulty());
    assert_eq!(loaded.digit_at(cell), game.digit_at(cell));
    assert_eq!(loaded.entered(), 1);
    assert!(!loaded.is_given(cell), "an entry came back as a given");
}

#[test]
fn a_resumed_game_carries_on_the_generator_stream() {
    let (mut game, _) = played();
    let mut loaded = rebuild(&saved_puzzle(&game)).expect("load succeeds");

    game.new_puzzle(Difficulty::Easy);
    loaded.new_puzzle(Difficulty::Easy);
    assert_eq!(
        loaded.puzzle(),
        game.puzzle(),
        "a resumed game drew a different next puzzle"
    );
}

#[test]
fn a_save_is_four_strings_and_a_number() {
    let (game, _) = played();
    let saved = saved_puzzle(&game);
    assert_eq!(saved.difficulty, "medium");
    assert_eq!(saved.stream, game.rng_state());
    assert_eq!(saved.board, game.board().to_line());
    assert_eq!(Grid::parse_line(&saved.board), Some(*game.board()));
}

#[test]
fn every_way_a_parsed_save_can_still_be_unplayable_is_refused() {
    let (game, cell) = played();
    let given = Cell::all()
        .into_iter()
        .find(|cell| game.is_given(*cell))
        .expect("a puzzle has givens");

    let mut cases: Vec<(&str, SavedPuzzle, String)> = Vec::new();

    let mut unknown_level = saved_puzzle(&game);
    unknown_level.difficulty = "impossible".to_owned();
    cases.push((
        "an unknown difficulty",
        unknown_level,
        "`impossible` is not a difficulty".to_owned(),
    ));

    let mut short = saved_puzzle(&game);
    short.board.truncate(80);
    cases.push((
        "a board that is not 81 cells",
        short,
        "the board are not 81 valid cells".to_owned(),
    ));

    let mut nonsense = saved_puzzle(&game);
    nonsense.givens = "x".repeat(81);
    cases.push((
        "givens that are not digits",
        nonsense,
        "the givens are not 81 valid cells".to_owned(),
    ));

    let mut unsolved = saved_puzzle(&game);
    unsolved.solution = game.puzzle().givens().to_line();
    cases.push((
        "a solution that is not solved",
        unsolved,
        "the stored solution is not a finished, legal grid".to_owned(),
    ));

    let mut dropped = saved_puzzle(&game);
    let mut without = *game.board();
    without.set(given, None);
    dropped.board = without.to_line();
    cases.push((
        "a board missing one of the givens",
        dropped,
        format!("the board does not hold the given at {}", given.name()),
    ));

    let mut invented = saved_puzzle(&game);
    let mut extra = *game.puzzle().givens();
    let wrong = Digit::all()
        .into_iter()
        .find(|digit| game.puzzle().solution().get(cell) != Some(*digit))
        .expect("some other digit exists");
    extra.set(cell, Some(wrong));
    invented.givens = extra.to_line();
    cases.push((
        "a given the solution disagrees with",
        invented,
        format!(
            "the given at {} does not match the stored solution",
            cell.name()
        ),
    ));

    let mut illegal = saved_puzzle(&game);
    let mut broken = *game.board();
    let (row, digit) = Cell::all()
        .into_iter()
        .find_map(|target| {
            let digit = broken.get(target)?;
            Some((target, digit))
        })
        .expect("the board holds something");
    let free = Cell::all()
        .into_iter()
        .find(|candidate| {
            broken.get(*candidate).is_none()
                && candidate.row() == row.row()
                && !game.is_given(*candidate)
        })
        .expect("some empty cell shares a row with a filled one");
    broken.set(free, Some(digit));
    illegal.board = broken.to_line();
    cases.push((
        "a board with a duplicate in a row",
        illegal,
        "the board breaks a row, column or block constraint".to_owned(),
    ));

    for (what, parts, reason) in cases {
        match rebuild(&parts) {
            Err(said) => assert_eq!(said, reason, "{what}"),
            Ok(_) => panic!("{what} should be corrupt"),
        }
    }

    // And the untouched parts still load, so the cases above are failing for
    // the reason they claim.
    assert_eq!(
        rebuild(&saved_puzzle(&game))
            .expect("the fixture loads")
            .board(),
        game.board()
    );
}
