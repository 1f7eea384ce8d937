use paperclip::action::Action;
use paperclip::chess::board::{File, Rank, Square};
use paperclip::chess::pieces::{to_piece, to_side, Piece, Placement, Side};
use paperclip::chess::screen::{
    footer_labels as chess_labels, from_rules_square, placement_at, promotion_choices,
    selection_text, shown_destinations, status_text as chess_status, to_rules_square, ChessHits,
    ChessScreen,
};
use paperclip::chess::shapes::{shapes, BASE};
use paperclip::chess::ChessApp;
use paperclip::chess_rules;
use paperclip::chess_rules::{Color, Game as ChessGame, Move, PieceKind};
use paperclip::damage::Damage;
use paperclip::render_test_card::sections::colour::{groups, Swatch};
use paperclip::render_test_card::sections::damage::{cell_index, cell_place, DamageGridState};
use paperclip::render_test_card::sections::geometry::{geometry_lines, padding, SurfaceFacts};
use paperclip::render_test_card::sections::ghosting::GhostingState;
use paperclip::render_test_card::sections::waveform::{pairings, patch_place};
use paperclip::render_test_card::{
    press as press_card, CardHits, Region as CardRegion, RenderTestCardScreen, Section,
};
use paperclip::sudoku::app::{seed_from, FALLBACK_SEED};
use paperclip::sudoku::screen::{
    footer_labels as sudoku_labels, puzzle_text, status_text as sudoku_status, Notice, Press,
    Region, SudokuHits, SudokuScreen,
};
use paperclip::sudoku::{PadKey, SudokuApp};
use paperclip::sudoku_rules::{Cell, Difficulty, Digit, Game};

/// More regions than any press changes.
const MOST: usize = 16;

// --- the chess board --------------------------------------------------------

fn sq(file: u8, rank: u8) -> Square {
    Square::new(file, rank).expect("a square on the board")
}

#[test]
fn the_dark_corners_are_a1_and_h8() {
    assert!(!Square::new(0, 0).unwrap().is_light(), "a1");
    assert!(!Square::new(7, 7).unwrap().is_light(), "h8");
    assert!(Square::new(7, 0).unwrap().is_light(), "h1");
    assert!(Square::new(0, 7).unwrap().is_light(), "a8");
    assert!(Square::new(1, 0).unwrap().is_light(), "b1");
}

#[test]
fn squares_are_named_algebraically() {
    assert_eq!(Square::new(0, 0).unwrap().name(), "a1");
    assert_eq!(Square::new(4, 3).unwrap().name(), "e4");
    assert_eq!(Square::new(7, 7).unwrap().name(), "h8");
}

#[test]
fn there_are_sixty_four_distinct_squares() {
    let all: Vec<_> = Square::all();
    assert_eq!(all.len(), 64);
    let mut sorted = all.clone();
    sorted.sort();
    sorted.dedup();
    assert_eq!(sorted.len(), 64);
}

#[test]
fn every_square_round_trips_through_its_place_on_screen() {
    for flipped in [false, true] {
        for square in Square::all() {
            let (column, row) = square.grid_position(flipped);
            assert_eq!(
                Square::at_grid_position(column, row, flipped),
                Some(square),
                "{} (flipped: {flipped})",
                square.name()
            );
        }
    }
    assert_eq!(sq(0, 0).grid_position(false), (0, 7), "a1 is bottom left");
    assert_eq!(sq(0, 0).grid_position(true), (7, 0), "and top right flipped");
    assert_eq!(Square::at_grid_position(8, 0, false), None);
    assert_eq!(Square::at_grid_position(0, 8, true), None);
}

#[test]
fn files_and_ranks_stop_at_eight() {
    assert_eq!(File::new(7).map(File::letter), Some('h'));
    assert_eq!(File::new(8), None);
    assert_eq!(Rank::new(0).map(Rank::number), Some(1));
    assert_eq!(Rank::new(8), None);
}

#[test]
fn pieces_are_drawn_as_what_they_are() {
    assert_eq!(
        Placement::new(to_side(Color::Black), to_piece(PieceKind::Queen)),
        Placement {
            piece: Piece::Queen,
            side: Side::Black
        }
    );
    assert_eq!(to_side(Color::White), Side::White);
    assert_eq!(to_piece(PieceKind::Pawn), Piece::Pawn);
}

/// A named piece and the polygons it is built from, in parts of its square.
fn all_shapes() -> Vec<(&'static str, Vec<Vec<(f32, f32)>>)> {
    [
        ("pawn", Piece::Pawn),
        ("rook", Piece::Rook),
        ("knight", Piece::Knight),
        ("bishop", Piece::Bishop),
        ("queen", Piece::Queen),
        ("king", Piece::King),
    ]
    .into_iter()
    .map(|(name, piece)| (name, shapes(piece).iter().map(|shape| parts(shape)).collect()))
    .collect()
}

fn parts(shape: &[(u16, u16)]) -> Vec<(f32, f32)> {
    shape
        .iter()
        .map(|&(x, y)| (f32::from(x) / 1000.0, f32::from(y) / 1000.0))
        .collect()
}

#[test]
fn every_piece_stays_inside_its_square() {
    for (name, shapes) in all_shapes() {
        for shape in shapes {
            for (x, y) in shape {
                assert!((0.0..=1.0).contains(&x), "{name} x={x}");
                assert!((0.0..=1.0).contains(&y), "{name} y={y}");
            }
        }
    }
}

#[test]
fn every_piece_stands_on_the_shared_base() {
    for (name, shapes) in all_shapes() {
        assert!(
            shapes.contains(&parts(&BASE)),
            "{name} does not sit on the common base"
        );
    }
}

#[test]
fn every_piece_shape_is_a_real_polygon() {
    for (name, shapes) in all_shapes() {
        for shape in shapes {
            assert!(shape.len() >= 3, "{name} has a degenerate shape");
        }
    }
}

#[test]
fn outlines_are_what_they_were_drawn_as() {
    let knight = &all_shapes()[2].1;
    assert_eq!(knight.len(), 2);
    assert_eq!(knight[0].len(), 19);
    assert_eq!(knight[0][10], (0.452, 0.086));
    assert_eq!(
        knight[1],
        vec![(0.135, 0.945), (0.865, 0.945), (0.795, 0.855), (0.205, 0.855)]
    );
}

#[test]
fn the_starting_position_has_thirty_two_pieces_in_the_right_places() {
    let game = ChessGame::new();
    let placed: Vec<_> = chess_rules::Square::all()
        .into_iter()
        .filter_map(|square| game.piece_at(square))
        .collect();
    assert_eq!(placed.len(), 32);
    assert_eq!(
        placed.iter().filter(|(c, _)| *c == Color::White).count(),
        16
    );
    assert_eq!(
        placed.iter().filter(|(_, k)| *k == PieceKind::Pawn).count(),
        16
    );
    assert_eq!(
        placed.iter().filter(|(_, k)| *k == PieceKind::King).count(),
        2
    );
    let e1 = chess_rules::Square::parse("e1").unwrap();
    assert_eq!(game.piece_at(e1), Some((Color::White, PieceKind::King)));
    assert_eq!(game.side_to_move(), Color::White);
}

// --- taps on the chess screen -----------------------------------------------

fn chess_tap() -> ChessHits {
    ChessHits {
        tap: true,
        picker: false,
        promotion: None,
        claim_draw: false,
        home: false,
        flip_board: false,
        new_game: false,
        square: None,
    }
}

fn on_square(square: Square) -> ChessHits {
    ChessHits {
        square: Some(square),
        ..chess_tap()
    }
}

#[test]
fn tapping_a_piece_then_a_legal_destination_moves_it() {
    let mut game = ChessGame::new();
    let mut screen = ChessScreen::new();

    screen.press(&mut game, on_square(sq(4, 1)));
    assert_eq!(screen.selected, Some(sq(4, 1)));
    assert_eq!(selection_text(&screen), "E2");

    screen.press(&mut game, on_square(sq(4, 3)));
    assert_eq!(screen.selected, None);
    assert_eq!(selection_text(&screen), "--");
    assert_eq!(
        game.piece_at(chess_rules::Square::new(4, 3).unwrap())
            .map(|(_, kind)| kind),
        Some(PieceKind::Pawn)
    );
    assert_eq!(game.side_to_move(), Color::Black);
    assert_eq!(chess_status(&game), "BLACK TO MOVE");
}

#[test]
fn tapping_the_same_square_twice_clears_the_selection() {
    let mut game = ChessGame::new();
    let mut screen = ChessScreen::new();
    screen.press(&mut game, on_square(sq(4, 1)));
    assert_eq!(screen.selected, Some(sq(4, 1)));
    screen.press(&mut game, on_square(sq(4, 1)));
    assert_eq!(screen.selected, None);
}

#[test]
fn tapping_an_illegal_destination_reselects_rather_than_moves() {
    let mut game = ChessGame::new();
    let mut screen = ChessScreen::new();
    screen.press(&mut game, on_square(sq(0, 1)));
    assert_eq!(screen.selected, Some(sq(0, 1)));

    // b1's knight is not where a2's pawn can go, but it is White's own piece,
    // so the tap picks it up instead of doing nothing.
    screen.press(&mut game, on_square(sq(1, 0)));
    assert_eq!(screen.selected, Some(sq(1, 0)));
    assert_eq!(game.side_to_move(), Color::White, "no move was made");

    // An empty square that is no destination lets go.
    screen.press(&mut game, on_square(sq(4, 4)));
    assert_eq!(screen.selected, None);
}

#[test]
fn a_promoting_move_opens_the_picker_and_a_choice_completes_it() {
    let mut game = ChessGame::from_fen("k7/4P3/8/8/8/8/8/4K3 w - - 0 1").expect("valid FEN");
    assert!(game.is_playable());
    let mut screen = ChessScreen::new();

    screen.press(&mut game, on_square(sq(4, 6)));
    screen.press(&mut game, on_square(sq(4, 7)));
    assert_eq!(screen.pending_promotion, Some((sq(4, 6), sq(4, 7))));
    assert_eq!(game.outcome(), None, "no move applied yet");
    assert_eq!(game.ply(), 0);
    assert_eq!(selection_text(&screen), "CHOOSE PROMOTION");

    // A tap beside the choices keeps the picker open.
    let beside = ChessHits {
        picker: true,
        home: true,
        ..chess_tap()
    };
    assert_eq!(screen.press(&mut game, beside), Action::Redraw);
    assert_eq!(screen.pending_promotion, Some((sq(4, 6), sq(4, 7))));

    assert!(promotion_choices().contains(&PieceKind::Knight));
    let knight = ChessHits {
        picker: true,
        promotion: Some(PieceKind::Knight),
        ..chess_tap()
    };
    screen.press(&mut game, knight);
    assert_eq!(screen.pending_promotion, None);
    assert_eq!(
        game.piece_at(chess_rules::Square::new(4, 7).unwrap())
            .map(|(_, kind)| kind),
        Some(PieceKind::Knight)
    );
}

#[test]
fn new_game_needs_two_taps_and_flip_board_disarms_it() {
    let mut game = ChessGame::new();
    game.apply(Move::new(
        chess_rules::Square::new(4, 1).unwrap(),
        chess_rules::Square::new(4, 3).unwrap(),
    ))
    .unwrap();
    let mut screen = ChessScreen::new();
    let new_game = ChessHits {
        new_game: true,
        ..chess_tap()
    };
    let flip = ChessHits {
        flip_board: true,
        ..chess_tap()
    };

    screen.press(&mut game, new_game);
    assert!(screen.new_game_armed);
    assert_eq!(chess_labels(&screen, &game)[0], "CONFIRM NEW GAME?");
    assert_eq!(game.side_to_move(), Color::Black, "not reset yet");

    screen.press(&mut game, flip);
    assert!(!screen.new_game_armed, "a different action disarms it");
    assert!(screen.flipped);

    screen.press(&mut game, new_game);
    screen.press(&mut game, new_game);
    assert_eq!(game.side_to_move(), Color::White, "reset to the start");
    assert_eq!(game.ply(), 0);
}

#[test]
fn a_finished_game_only_answers_footer_taps() {
    let mut game = ChessGame::from_fen("7k/6pp/8/8/8/8/8/K3Q3 w - - 0 1").expect("valid FEN");
    game.apply(Move::new(
        chess_rules::Square::new(4, 0).unwrap(),
        chess_rules::Square::new(4, 7).unwrap(),
    ))
    .unwrap();
    assert!(game.outcome().is_some());
    assert_eq!(chess_status(&game), "CHECKMATE \u{00B7} WHITE WINS");

    let mut screen = ChessScreen::new();
    assert_eq!(
        screen.press(&mut game, on_square(sq(0, 0))),
        Action::Nothing
    );
    let home = ChessHits {
        home: true,
        ..chess_tap()
    };
    assert_eq!(screen.press(&mut game, home), Action::Home);
}

#[test]
fn a_claim_is_offered_and_taken_only_while_there_is_one() {
    let mut game =
        ChessGame::from_position("7k/8/8/8/8/8/8/K2R4 w - - 0 1", 100).expect("valid FEN");
    let mut screen = ChessScreen::new();
    assert_eq!(
        chess_labels(&screen, &game),
        vec!["NEW GAME", "FLIP BOARD", "HOME", "CLAIM DRAW"]
    );
    let claim = ChessHits {
        claim_draw: true,
        ..chess_tap()
    };
    assert_eq!(screen.press(&mut game, claim), Action::Redraw);
    assert_eq!(
        chess_status(&game),
        "DRAW CLAIMED \u{00B7} FIFTY-MOVE RULE"
    );
    assert_eq!(chess_labels(&screen, &game).len(), 3);
}

#[test]
fn a_chess_session_is_worth_saving_once_a_move_is_made() {
    let mut app = ChessApp::new();
    let (action, changed) = app.press(on_square(sq(4, 1)));
    assert_eq!(action, Action::Redraw);
    assert!(!changed, "selecting a piece changes no game");
    let (_, changed) = app.press(on_square(sq(4, 3)));
    assert!(changed, "a move does");

    let saved = app.game.events().clone();
    let mut next = ChessApp::new();
    next.resume(ChessGame::from_events(&saved).expect("it replays"));
    assert_eq!(next.game.ply(), 1);
    assert_eq!(next.game.side_to_move(), Color::Black);
}

#[test]
fn screen_squares_and_rules_squares_are_the_same_squares() {
    for square in Square::all() {
        let rules = to_rules_square(square);
        assert_eq!(rules.name(), square.name());
        assert_eq!(from_rules_square(rules), square);
    }
}

#[test]
fn a_picked_up_piece_shows_where_it_may_go() {
    let mut game = ChessGame::new();
    let mut screen = ChessScreen::new();
    assert!(shown_destinations(&screen, &game).is_empty());
    screen.press(&mut game, on_square(sq(1, 0)));
    let mut shown: Vec<String> = shown_destinations(&screen, &game)
        .into_iter()
        .map(Square::name)
        .collect();
    shown.sort();
    assert_eq!(shown, vec!["a3", "c3"]);
    assert_eq!(
        placement_at(&game, sq(1, 0)),
        Some(Placement::new(Side::White, Piece::Knight))
    );
    assert_eq!(placement_at(&game, sq(2, 2)), None);
}

#[test]
fn check_is_said_in_the_status_line() {
    let game = ChessGame::from_fen("4k3/8/8/8/8/8/8/3KR3 b - - 0 1").expect("valid FEN");
    assert_eq!(chess_status(&game), "BLACK TO MOVE \u{00B7} CHECK");
}

// --- taps on the Sudoku screen ----------------------------------------------

fn tap() -> SudokuHits {
    SudokuHits {
        tap: true,
        home: false,
        new_puzzle: false,
        difficulty: false,
        key: None,
        cell: None,
    }
}

fn on_cell(cell: Cell) -> SudokuHits {
    SudokuHits {
        cell: Some(cell),
        ..tap()
    }
}

fn on_key(key: PadKey) -> SudokuHits {
    SudokuHits {
        key: Some(key),
        ..tap()
    }
}

fn started() -> (Game, SudokuScreen) {
    let game = Game::start(Difficulty::Easy, 4_242);
    let screen = SudokuScreen::new(game.difficulty());
    (game, screen)
}

/// An empty cell, and a digit that is legal in it.
fn playable(game: &Game) -> (Cell, Digit) {
    Cell::all()
        .into_iter()
        .filter(|cell| game.digit_at(*cell).is_none())
        .find_map(|cell| {
            Digit::all()
                .into_iter()
                .find(|digit| game.board().accepts(cell, *digit))
                .map(|digit| (cell, digit))
        })
        .expect("some empty cell takes some digit")
}

fn regions(press: &Press) -> Vec<Region> {
    match &press.damage {
        Damage::Regions(regions) => regions.clone(),
        Damage::Full => panic!("the press claimed the whole screen"),
    }
}

#[test]
fn the_pad_has_nine_digits_and_a_clear_key_in_order() {
    let keys = PadKey::all();
    assert_eq!(keys.len(), 10);
    for (index, digit) in Digit::all().into_iter().enumerate() {
        assert_eq!(keys[index], PadKey::Digit(digit));
    }
    assert_eq!(keys[9], PadKey::Clear);
    assert_eq!(PadKey::Clear.label(), "CLR");
    assert_eq!(PadKey::Digit(Digit::all()[4]).label(), "5");
}

#[test]
fn tapping_a_cell_then_a_digit_enters_it() {
    let (mut game, mut screen) = started();
    let (cell, digit) = playable(&game);

    screen.press(&mut game, on_cell(cell), MOST);
    assert_eq!(screen.selected, Some(cell));
    assert_eq!(sudoku_status(&screen, &game), "TAP A DIGIT");

    let press = screen.press(&mut game, on_key(PadKey::Digit(digit)), MOST);
    assert_eq!(game.digit_at(cell), Some(digit));
    assert_eq!(press.action, Action::Redraw);
    assert_eq!(
        regions(&press),
        vec![Region::Cell(cell)],
        "entering a digit must claim exactly the cell it changed"
    );
}

#[test]
fn moving_the_selection_claims_both_cells_and_nothing_else() {
    let (mut game, mut screen) = started();
    let empty: Vec<Cell> = Cell::all()
        .into_iter()
        .filter(|cell| !game.is_given(*cell))
        .take(2)
        .collect();
    let (first, second) = (empty[0], empty[1]);

    let press = screen.press(&mut game, on_cell(first), MOST);
    assert_eq!(regions(&press), vec![Region::Cell(first)]);

    let press = screen.press(&mut game, on_cell(second), MOST);
    assert_eq!(screen.selected, Some(second));
    assert_eq!(
        regions(&press),
        vec![Region::Cell(first), Region::Cell(second)],
        "the outline left one cell and arrived at another"
    );
}

#[test]
fn tapping_the_selected_cell_again_clears_the_selection() {
    let (mut game, mut screen) = started();
    let cell = Cell::all()
        .into_iter()
        .find(|cell| !game.is_given(*cell))
        .expect("a puzzle has empty cells");

    screen.press(&mut game, on_cell(cell), MOST);
    assert_eq!(screen.selected, Some(cell));
    let press = screen.press(&mut game, on_cell(cell), MOST);
    assert_eq!(screen.selected, None);
    assert_eq!(regions(&press), vec![Region::Cell(cell)]);
}

#[test]
fn a_given_refuses_the_tap_and_says_so_without_losing_the_selection() {
    let (mut game, mut screen) = started();
    let (cell, _) = playable(&game);
    let given = Cell::all()
        .into_iter()
        .find(|cell| game.is_given(*cell))
        .expect("a puzzle has givens");

    screen.press(&mut game, on_cell(cell), MOST);
    let press = screen.press(&mut game, on_cell(given), MOST);

    assert_eq!(screen.notice, Some(Notice::Given));
    assert_eq!(screen.selected, Some(cell), "the selection was lost");
    assert_eq!(regions(&press), vec![Region::Status]);
    assert_eq!(sudoku_status(&screen, &game), "THAT CELL IS A GIVEN");
}

#[test]
fn an_invalid_placement_is_refused_and_names_the_cell_in_the_way() {
    let (mut game, mut screen) = started();
    let (cell, digit, with) = Cell::all()
        .into_iter()
        .filter(|cell| game.digit_at(*cell).is_none())
        .find_map(|cell| {
            Digit::all().into_iter().find_map(|digit| {
                game.board()
                    .conflict(cell, digit)
                    .map(|with| (cell, digit, with))
            })
        })
        .expect("an empty cell has some digit ruled out");

    screen.press(&mut game, on_cell(cell), MOST);
    let press = screen.press(&mut game, on_key(PadKey::Digit(digit)), MOST);

    assert_eq!(game.digit_at(cell), None, "a refused digit was entered");
    assert_eq!(screen.notice, Some(Notice::Conflict { with }));
    assert_eq!(regions(&press), vec![Region::Status]);
    assert!(sudoku_status(&screen, &game).contains(&with.name()));
}

#[test]
fn a_digit_with_nothing_selected_asks_for_a_cell() {
    let (mut game, mut screen) = started();
    let press = screen.press(&mut game, on_key(PadKey::Digit(Digit::all()[0])), MOST);

    assert_eq!(screen.notice, Some(Notice::NoSelection));
    assert_eq!(regions(&press), vec![Region::Status]);
    assert_eq!(game.entered(), 0);
    assert_eq!(sudoku_status(&screen, &game), "TAP A CELL FIRST");
}

#[test]
fn the_clear_key_empties_the_selected_cell_and_claims_only_it() {
    let (mut game, mut screen) = started();
    let (cell, digit) = playable(&game);
    game.set(cell, digit).expect("a legal entry");
    screen.press(&mut game, on_cell(cell), MOST);

    let press = screen.press(&mut game, on_key(PadKey::Clear), MOST);
    assert_eq!(game.digit_at(cell), None);
    assert_eq!(regions(&press), vec![Region::Cell(cell)]);
}

#[test]
fn new_puzzle_needs_two_taps_and_another_action_disarms_it() {
    let (mut game, mut screen) = started();
    let first = *game.puzzle();
    let new_puzzle = SudokuHits {
        new_puzzle: true,
        ..tap()
    };
    let difficulty = SudokuHits {
        difficulty: true,
        ..tap()
    };

    let press = screen.press(&mut game, new_puzzle, MOST);
    assert!(screen.new_puzzle_armed);
    assert_eq!(regions(&press), vec![Region::NewPuzzle]);
    assert_eq!(game.puzzle(), &first, "the puzzle changed on one tap");
    assert_eq!(sudoku_labels(&screen)[0], "CONFIRM NEW PUZZLE?");

    let press = screen.press(&mut game, difficulty, MOST);
    assert!(!screen.new_puzzle_armed, "another action did not disarm it");
    assert_eq!(
        regions(&press),
        vec![Region::NewPuzzle, Region::Difficulty]
    );
    assert_eq!(screen.next_difficulty, Difficulty::Easy.next());
    assert_eq!(
        sudoku_labels(&screen),
        vec!["NEW PUZZLE", "NEXT: MEDIUM", "HOME"]
    );

    screen.press(&mut game, new_puzzle, MOST);
    let press = screen.press(&mut game, new_puzzle, MOST);
    assert_ne!(game.puzzle(), &first, "the second tap did nothing");
    assert_eq!(game.difficulty(), Difficulty::Easy.next());
    assert_eq!(
        press.damage,
        Damage::Full,
        "a new grid is not a per-cell change"
    );
}

#[test]
fn a_press_on_nothing_changes_nothing() {
    let (mut game, mut screen) = started();
    let press = screen.press(&mut game, tap(), MOST);
    assert_eq!(press.action, Action::Nothing);
    assert!(regions(&press).is_empty());
}

#[test]
fn a_solved_puzzle_says_so_and_only_answers_footer_taps() {
    let mut game = Game::start(Difficulty::Easy, 8_080);
    let mut screen = SudokuScreen::new(game.difficulty());
    let solution = *game.puzzle().solution();

    // Everything but the last cell, through the rules; the last one through
    // the screen.
    let last = Cell::all()
        .into_iter()
        .filter(|cell| !game.is_given(*cell))
        .last()
        .expect("a puzzle has empty cells");
    for cell in Cell::all() {
        if !game.is_given(cell) && cell != last {
            let digit = solution.get(cell).expect("a solution is complete");
            game.set(cell, digit).expect("the solution is legal");
        }
    }
    screen.press(&mut game, on_cell(last), MOST);
    let digit = solution.get(last).expect("a solution is complete");
    let press = screen.press(&mut game, on_key(PadKey::Digit(digit)), MOST);

    assert!(game.is_solved());
    assert_eq!(
        press.damage,
        Damage::Full,
        "SOLVED is a whole-screen change"
    );
    assert_eq!(sudoku_status(&screen, &game), "SOLVED");

    // Nothing on the board answers any more, but Home still does.
    let quiet = screen.press(&mut game, on_cell(last), MOST);
    assert_eq!(quiet.action, Action::Nothing);
    let home = SudokuHits { home: true, ..tap() };
    assert_eq!(screen.press(&mut game, home, MOST).action, Action::Home);
}

#[test]
fn more_regions_than_the_platform_takes_become_everything() {
    let press = Press::regions(vec![Region::Status, Region::NewPuzzle], 1);
    assert_eq!(press.action, Action::Redraw);
    assert_eq!(press.damage, Damage::Full);
    assert_eq!(Press::regions(Vec::new(), 0), Press::nothing());
}

#[test]
fn the_status_bar_names_the_level_and_counts_the_givens() {
    let (game, _) = started();
    assert_eq!(
        puzzle_text(&game),
        format!("EASY \u{00B7} {} GIVENS", game.puzzle().given_count())
    );
}

#[test]
fn a_sudoku_session_is_worth_saving_once_a_digit_lands() {
    let mut app = SudokuApp::with_seed(9);
    let (cell, digit) = playable(&app.game);
    let (_, changed) = app.press(on_cell(cell), MOST);
    assert!(!changed, "selecting a cell changes no puzzle");
    let (_, changed) = app.press(on_key(PadKey::Digit(digit)), MOST);
    assert!(changed, "a digit does");

    let resumed = SudokuApp::resume(app.game);
    assert_eq!(resumed.game.digit_at(cell), Some(digit));
    assert_eq!(resumed.screen.selected, None);
}

#[test]
fn a_seed_is_read_from_bytes_or_falls_back() {
    assert_eq!(seed_from(None), FALLBACK_SEED);
    assert_eq!(FALLBACK_SEED, 0x5344_4F4B_5530_3031);
    assert_eq!(
        seed_from(Some([1, 2, 3, 4, 5, 6, 7, 8])),
        0x0807_0605_0403_0201
    );
    assert_eq!(seed_from(Some([255; 8])), u64::MAX);
    // Two fresh apps draw their own seeds; both are playable.
    assert!(!SudokuApp::new().game.is_solved());
}

// --- the render test card ---------------------------------------------------

fn card_tap() -> CardHits {
    CardHits {
        tap: true,
        home: false,
        tab: None,
        cycle: false,
        cell: None,
    }
}

#[test]
fn a_fresh_screen_starts_on_greyscale() {
    assert_eq!(RenderTestCardScreen::default().section, Section::Greyscale);
}

#[test]
fn every_section_is_reachable_by_its_tab() {
    let mut screen = RenderTestCardScreen::default();
    for (index, section) in Section::ALL.into_iter().enumerate() {
        assert_eq!(Section::at_tab(index), Some(section));
        press_card(
            &mut screen,
            CardHits {
                tab: Some(section),
                ..card_tap()
            },
            MOST,
        );
        assert_eq!(screen.section, section);
    }
    assert_eq!(Section::at_tab(7), None);
    assert_eq!(Section::Text.heading(), "HAIRLINES AND TEXT");
    assert_eq!(Section::Greyscale.tab_label(), "GREY");
}

#[test]
fn tapping_the_active_tab_changes_nothing() {
    let mut screen = RenderTestCardScreen::default();
    let result = press_card(
        &mut screen,
        CardHits {
            tab: Some(Section::Greyscale),
            ..card_tap()
        },
        MOST,
    );
    assert_eq!(screen.section, Section::Greyscale);
    assert_eq!(result.damage, Damage::Regions(Vec::new()));
}

#[test]
fn switching_sections_claims_the_whole_viewport() {
    let mut screen = RenderTestCardScreen::default();
    let result = press_card(
        &mut screen,
        CardHits {
            tab: Some(Section::Colour),
            ..card_tap()
        },
        MOST,
    );
    assert_eq!(screen.section, Section::Colour);
    assert_eq!(result.damage, Damage::Full);
}

#[test]
fn cycling_ghosting_claims_only_the_patch_and_counter() {
    let mut screen = RenderTestCardScreen {
        section: Section::Ghosting,
        ..Default::default()
    };
    let result = press_card(
        &mut screen,
        CardHits {
            cycle: true,
            ..card_tap()
        },
        MOST,
    );
    assert_eq!(
        result.damage,
        Damage::Regions(vec![CardRegion::Patch, CardRegion::Counter])
    );
    assert_eq!(result.action, Action::Redraw);
    assert_eq!(screen.ghosting.counter_text(), "CYCLES: 1");
}

#[test]
fn a_cycle_toggles_the_patch_and_leaves_the_control_alone() {
    let mut screen = RenderTestCardScreen {
        section: Section::Ghosting,
        ..Default::default()
    };
    let cycle = CardHits {
        cycle: true,
        ..card_tap()
    };
    press_card(&mut screen, cycle, MOST);
    assert_eq!(screen.ghosting, GhostingState { cycles: 1, on: true });
    press_card(&mut screen, cycle, MOST);
    assert_eq!(
        screen.ghosting,
        GhostingState {
            cycles: 2,
            on: false
        }
    );
}

#[test]
fn a_tap_off_the_button_changes_nothing() {
    let mut screen = RenderTestCardScreen {
        section: Section::Ghosting,
        ..Default::default()
    };
    let result = press_card(&mut screen, card_tap(), MOST);
    assert_eq!(result.action, Action::Nothing);
    assert_eq!(screen.ghosting.cycles, 0);
}

#[test]
fn tapping_a_damage_cell_claims_exactly_one_region() {
    let mut screen = RenderTestCardScreen {
        section: Section::Damage,
        ..Default::default()
    };
    let result = press_card(
        &mut screen,
        CardHits {
            cell: Some(0),
            ..card_tap()
        },
        MOST,
    );
    assert_eq!(
        result.damage,
        Damage::Regions(vec![CardRegion::Cell(0)])
    );
}

#[test]
fn tapping_a_cell_toggles_only_that_cell() {
    let mut screen = RenderTestCardScreen {
        section: Section::Damage,
        ..Default::default()
    };
    let hit = CardHits {
        cell: Some(3),
        ..card_tap()
    };
    press_card(&mut screen, hit, MOST);
    assert!(screen.damage_grid.filled[3]);
    for (index, filled) in screen.damage_grid.filled.iter().enumerate() {
        if index != 3 {
            assert!(!filled, "cell {index} changed too");
        }
    }
    press_card(&mut screen, hit, MOST);
    assert_eq!(screen.damage_grid, DamageGridState::default());
}

#[test]
fn a_tap_outside_the_grid_changes_nothing() {
    let mut screen = RenderTestCardScreen {
        section: Section::Damage,
        ..Default::default()
    };
    let result = press_card(&mut screen, card_tap(), MOST);
    assert_eq!(result.action, Action::Nothing);
    assert_eq!(screen.damage_grid, DamageGridState::default());
}

#[test]
fn every_cell_is_reachable() {
    for index in 0..20 {
        let (column, row) = cell_place(index);
        assert_eq!(cell_index(column, row), Some(index));
    }
    assert_eq!(cell_index(0, 4), None);
    assert_eq!(cell_index(usize::MAX, 0), None);
}

#[test]
fn a_padded_stride_is_reported_rather_than_assumed_packed() {
    let surface = SurfaceFacts {
        width: 1620,
        height: 2160,
        stride_bytes: 6528,
        bytes_per_pixel: 4,
        format: "Argb8888".to_owned(),
    };
    assert_eq!(surface.width * surface.bytes_per_pixel, 6480);
    assert_eq!(padding(&surface), 48);
    assert_eq!(
        geometry_lines(&surface),
        vec![
            "EXTENT    1620 x 2160 px",
            "FORMAT    Argb8888",
            "STRIDE    6528 bytes/row (1632 px/row)",
            "PACKED?   no, 48 byte(s)/row of padding beyond a tightly packed row",
        ]
    );
    let packed = SurfaceFacts {
        stride_bytes: 6480,
        ..surface
    };
    assert_eq!(
        geometry_lines(&packed)[3],
        "PACKED?   yes, stride equals width times bytes-per-pixel"
    );
}

#[test]
fn the_colours_are_labelled_with_what_they_are() {
    let groups = groups();
    assert_eq!(groups.len(), 3);
    assert_eq!(groups[0].title, "PRIMARY / SECONDARY - FULL SATURATION");
    assert_eq!(groups[0].swatches.len(), groups[1].swatches.len());
    for (full, soft) in groups[0].swatches.iter().zip(&groups[1].swatches) {
        assert_eq!(soft.name, format!("{} SOFT", full.name));
        assert_eq!(u16::from(soft.r), (u16::from(full.r) + 256) / 2);
    }
    assert_eq!(groups[2].swatches[0].hex(), "3B6EA5");
    assert_eq!(Swatch::new("INK", 0, 10, 255).hex(), "000AFF");
}

#[test]
fn the_pairings_stand_in_two_columns() {
    assert_eq!(pairings().map(|p| p.name), ["INK", "ANIMATION", "UI", "CONTENT"]);
    assert_eq!(pairings()[3].detail, "mode 4 \u{b7} colour \u{b7} slow, full colour");
    assert_eq!(patch_place(3), (1, 1));
}

// --- what every screen does -------------------------------------------------

#[test]
fn screen_home_is_always_reachable() {
    let mut game = ChessGame::new();
    let home = ChessHits {
        home: true,
        ..chess_tap()
    };
    assert_eq!(ChessScreen::new().press(&mut game, home), Action::Home);

    let (mut game, mut screen) = started();
    let home = SudokuHits { home: true, ..tap() };
    assert_eq!(screen.press(&mut game, home, MOST).action, Action::Home);

    let mut card = RenderTestCardScreen::default();
    let home = CardHits {
        home: true,
        ..card_tap()
    };
    assert_eq!(press_card(&mut card, home, MOST).action, Action::Home);
}

#[test]
fn screen_a_hover_is_never_treated_as_a_tap() {
    let mut game = ChessGame::new();
    let mut chess = ChessScreen::new();
    let hover = ChessHits {
        tap: false,
        ..on_square(sq(4, 1))
    };
    assert_eq!(chess.press(&mut game, hover), Action::Nothing);
    assert_eq!(chess.selected, None);

    let (mut game, mut screen) = started();
    let (cell, _) = playable(&game);
    let hover = SudokuHits {
        tap: false,
        ..on_cell(cell)
    };
    let press = screen.press(&mut game, hover, MOST);
    assert_eq!(press.action, Action::Nothing);
    assert_eq!(screen.selected, None);
    assert!(regions(&press).is_empty());

    let mut card = RenderTestCardScreen::default();
    let hover = CardHits {
        tap: false,
        home: true,
        ..card_tap()
    };
    assert_eq!(press_card(&mut card, hover, MOST).action, Action::Nothing);
}
