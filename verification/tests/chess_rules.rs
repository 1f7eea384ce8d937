use paperclip::chess_rules::game::{
    automatic_outcome, choose_move, destinations_from, ClaimableDraw, Game, GameEvent, Outcome,
};
use paperclip::chess_rules::board::Status;
use paperclip::chess_rules::{ClaimError, Color, File, Move, MoveError, PieceKind, Rank, Square};

fn sq(name: &str) -> Square {
    Square::parse(name).unwrap_or_else(|| panic!("{name} is a valid square"))
}

fn mv(from: &str, to: &str) -> Move {
    Move::new(sq(from), sq(to))
}

fn position(fen: &str, halfmove_clock: u32) -> Game {
    let game = Game::from_position(fen, halfmove_clock)
        .unwrap_or_else(|| panic!("{fen:?} is not valid"));
    assert!(game.is_playable());
    game
}

// --- vocabulary -------------------------------------------------------------

#[test]
fn squares_round_trip_through_algebraic_notation() {
    for square in Square::all() {
        assert_eq!(Square::parse(&square.name()), Some(square));
    }
}

#[test]
fn parsing_rejects_nonsense() {
    for bad in ["", "e", "e9", "i4", "E4", "e4x", "44"] {
        assert_eq!(Square::parse(bad), None, "{bad:?} should not parse");
    }
}

#[test]
fn a_plain_move_carries_no_promotion() {
    let e2 = Square::parse("e2").unwrap();
    let e4 = Square::parse("e4").unwrap();
    assert_eq!(Move::new(e2, e4).promotion, None);
}

#[test]
fn a_promoting_move_carries_the_chosen_piece() {
    let e7 = Square::parse("e7").unwrap();
    let e8 = Square::parse("e8").unwrap();
    assert_eq!(
        Move::promoting(e7, e8, PieceKind::Queen).promotion,
        Some(PieceKind::Queen)
    );
}

#[test]
fn files_and_ranks_are_lettered_and_numbered() {
    assert_eq!(File::new(4).unwrap().letter(), 'e');
    assert_eq!(File::new(8), None);
    assert_eq!(File::from_letter('h').unwrap().index(), 7);
    assert_eq!(File::from_letter('i'), None);
    assert_eq!(Rank::new(3).unwrap().number(), 4);
    assert_eq!(Rank::new(8), None);
    assert_eq!(Rank::from_number('1').unwrap().index(), 0);
    assert_eq!(Rank::from_number('9'), None);
    assert_eq!(Color::White.opponent(), Color::Black);
    assert_eq!(Color::Black.opponent(), Color::White);
    assert_eq!(Square::all()[0], sq("a1"));
    assert_eq!(Square::all()[1], sq("a2"));
    assert_eq!(Square::all()[8], sq("b1"));
    assert_eq!(Square::all()[63], sq("h8"));
}

// --- castling ---------------------------------------------------------------

#[test]
fn kingside_castling_moves_the_king_and_rook_together() {
    let mut game = position("4k3/8/8/8/8/8/8/4K2R w K - 0 1", 0);
    game.apply(mv("e1", "g1")).expect("O-O is legal here");
    assert_eq!(
        game.piece_at(sq("g1")),
        Some((Color::White, PieceKind::King))
    );
    assert_eq!(
        game.piece_at(sq("f1")),
        Some((Color::White, PieceKind::Rook))
    );
    assert_eq!(game.piece_at(sq("e1")), None);
    assert_eq!(game.piece_at(sq("h1")), None);
}

#[test]
fn queenside_castling_moves_the_king_and_rook_together() {
    let mut game = position("4k3/8/8/8/8/8/8/R3K3 w Q - 0 1", 0);
    game.apply(mv("e1", "c1")).expect("O-O-O is legal here");
    assert_eq!(
        game.piece_at(sq("c1")),
        Some((Color::White, PieceKind::King))
    );
    assert_eq!(
        game.piece_at(sq("d1")),
        Some((Color::White, PieceKind::Rook))
    );
    assert_eq!(game.piece_at(sq("a1")), None);
}

#[test]
fn castling_is_refused_once_rights_are_gone() {
    let mut game = position("4k3/8/8/8/8/8/8/4K2R w - - 0 1", 0);
    assert_eq!(game.apply(mv("e1", "g1")), Err(MoveError::Illegal));
}

#[test]
fn castling_is_refused_after_the_rook_moves_even_if_it_comes_back() {
    let mut game = position("4k3/8/8/8/8/8/8/4K2R w K - 0 1", 0);
    game.apply(mv("h1", "h2")).expect("the rook can step out");
    game.apply(mv("e8", "d8")).expect("Black shuffles");
    game.apply(mv("h2", "h1")).expect("the rook comes back");
    game.apply(mv("d8", "e8")).expect("Black shuffles back");
    assert_eq!(game.apply(mv("e1", "g1")), Err(MoveError::Illegal));
}

#[test]
fn castling_through_an_attacked_square_is_refused() {
    let mut game = position("k4r2/8/8/8/8/8/8/4K2R w K - 0 1", 0);
    assert!(!game.is_in_check(), "the king itself is not in check yet");
    assert_eq!(game.apply(mv("e1", "g1")), Err(MoveError::Illegal));
}

// --- en passant -------------------------------------------------------------

#[test]
fn en_passant_captures_the_pawn_that_just_passed_it() {
    let mut game = Game::new();
    game.apply(mv("e2", "e4")).unwrap();
    game.apply(mv("a7", "a6")).unwrap();
    game.apply(mv("e4", "e5")).unwrap();
    let record = game
        .apply(mv("d7", "d5"))
        .expect("Black's double step opens en passant");
    assert!(!record.is_check);

    let record = game.apply(mv("e5", "d6")).expect("en passant capture");
    assert_eq!(record.captured, Some(PieceKind::Pawn));
    assert_eq!(
        game.piece_at(sq("d6")),
        Some((Color::White, PieceKind::Pawn))
    );
    assert_eq!(
        game.piece_at(sq("d5")),
        None,
        "the captured pawn is removed"
    );
}

#[test]
fn en_passant_stops_being_legal_after_one_move_passes() {
    let mut game = Game::new();
    game.apply(mv("e2", "e4")).unwrap();
    game.apply(mv("a7", "a6")).unwrap();
    game.apply(mv("e4", "e5")).unwrap();
    game.apply(mv("d7", "d5")).unwrap();
    game.apply(mv("b1", "c3")).unwrap(); // White declines the capture.
    game.apply(mv("a6", "a5")).unwrap(); // Black plays on.
    assert_eq!(game.apply(mv("e5", "d6")), Err(MoveError::Illegal));
}

// --- promotion --------------------------------------------------------------

const PROMOTION_FEN: &str = "k7/4P3/8/8/8/8/8/4K3 w - - 0 1";

#[test]
fn promoting_requires_a_chosen_piece() {
    let mut game = position(PROMOTION_FEN, 0);
    assert_eq!(
        game.apply(mv("e7", "e8")),
        Err(MoveError::PromotionRequired)
    );
}

#[test]
fn a_promotion_piece_is_refused_on_a_move_that_does_not_promote() {
    let mut game = position(PROMOTION_FEN, 0);
    let not_a_promotion = Move::promoting(sq("e1"), sq("e2"), PieceKind::Queen);
    assert_eq!(
        game.apply(not_a_promotion),
        Err(MoveError::PromotionNotAllowed)
    );
}

#[test]
fn a_pawn_may_promote_to_any_of_the_four_pieces() {
    for piece in [
        PieceKind::Queen,
        PieceKind::Rook,
        PieceKind::Bishop,
        PieceKind::Knight,
    ] {
        let mut game = position(PROMOTION_FEN, 0);
        game.apply(Move::promoting(sq("e7"), sq("e8"), piece))
            .unwrap_or_else(|error| panic!("promoting to {piece:?} failed: {error:?}"));
        assert_eq!(game.piece_at(sq("e8")), Some((Color::White, piece)));
    }
}

#[test]
fn a_pawn_may_not_promote_to_a_king_or_a_pawn() {
    for piece in [PieceKind::King, PieceKind::Pawn] {
        let mut game = position(PROMOTION_FEN, 0);
        assert_eq!(
            game.apply(Move::promoting(sq("e7"), sq("e8"), piece)),
            Err(MoveError::Illegal)
        );
        assert_eq!(game.ply(), 0);
    }
}

// --- moves that would expose the king ---------------------------------------

#[test]
fn a_pinned_piece_may_not_move_off_the_pin() {
    let mut game = position("k3r3/8/8/8/8/8/4R3/4K3 w - - 0 1", 0);
    assert_eq!(game.apply(mv("e2", "a2")), Err(MoveError::Illegal));
    game.apply(mv("e2", "e5"))
        .expect("staying on the pin is legal");
}

// --- check, checkmate, stalemate --------------------------------------------

#[test]
fn a_move_that_checks_without_mating_leaves_the_game_ongoing() {
    let mut game = position("4k3/8/8/8/8/8/8/3QK3 w - - 0 1", 0);
    let record = game.apply(mv("d1", "d8")).expect("Qd8+ is legal");
    assert!(record.is_check);
    assert!(game.is_in_check());
    assert_eq!(game.outcome(), None);
}

#[test]
fn checkmate_ends_the_game_with_a_winner() {
    let mut game = position("7k/6pp/8/8/8/8/8/K3Q3 w - - 0 1", 0);
    let record = game.apply(mv("e1", "e8")).expect("Qe8# is legal");
    assert!(record.is_check);
    assert_eq!(
        game.outcome(),
        Some(Outcome::Checkmate {
            winner: Color::White
        })
    );
    assert!(game.legal_destinations(sq("h8")).is_empty());
}

#[test]
fn stalemate_ends_the_game_as_a_draw_with_no_winner() {
    let mut game = position("7k/5K2/8/8/8/8/6Q1/8 w - - 0 1", 0);
    game.apply(mv("g2", "g6")).expect("Qg6 is legal");
    assert_eq!(game.outcome(), Some(Outcome::Stalemate));
    assert!(game.outcome().unwrap().is_draw());
}

// --- insufficient material --------------------------------------------------

#[test]
fn bare_kings_are_insufficient_material() {
    let mut game = position("7k/8/8/8/8/8/8/K7 w - - 0 1", 0);
    game.apply(mv("a1", "a2")).unwrap();
    assert_eq!(game.outcome(), Some(Outcome::InsufficientMaterial));
}

#[test]
fn king_and_one_minor_piece_is_insufficient_material() {
    let mut game = position("7k/8/8/8/8/8/8/K3N3 w - - 0 1", 0);
    game.apply(mv("a1", "a2")).unwrap();
    assert_eq!(game.outcome(), Some(Outcome::InsufficientMaterial));
}

#[test]
fn a_lone_rook_is_sufficient_material() {
    let mut game = position("7k/8/8/8/8/8/8/K3R3 w - - 0 1", 0);
    game.apply(mv("a1", "a2")).unwrap();
    assert_eq!(game.outcome(), None);
}

#[test]
fn two_minor_pieces_are_sufficient_material() {
    let mut game = position("6nk/8/8/8/8/8/8/K3N3 w - - 0 1", 0);
    game.apply(mv("a1", "a2")).unwrap();
    assert_eq!(game.outcome(), None);
}

// --- fifty-move rule and the seventy-five-move automatic draw ---------------

const ROOK_ENDGAME_FEN: &str = "7k/8/8/8/8/8/8/K2R4 w - - 0 1";

#[test]
fn the_fifty_move_rule_is_claimable_but_does_not_end_the_game_by_itself() {
    let mut game = position(ROOK_ENDGAME_FEN, 99);
    game.apply(mv("a1", "a2")).unwrap();
    assert_eq!(game.claimable_draw(), Some(ClaimableDraw::FiftyMoveRule));
    assert_eq!(
        game.outcome(),
        None,
        "a claimable draw is not an automatic one"
    );
}

#[test]
fn claiming_the_fifty_move_rule_ends_the_game() {
    let mut game = position(ROOK_ENDGAME_FEN, 100);
    assert_eq!(game.claim_draw(), Ok(ClaimableDraw::FiftyMoveRule));
    assert_eq!(
        game.outcome(),
        Some(Outcome::Claimed(ClaimableDraw::FiftyMoveRule))
    );
    assert_eq!(game.claim_draw(), Err(ClaimError::GameOver));
}

#[test]
fn claiming_a_draw_with_nothing_available_is_refused() {
    let mut game = position(ROOK_ENDGAME_FEN, 0);
    assert_eq!(game.claim_draw(), Err(ClaimError::NothingToClaim));
}

#[test]
fn seventy_five_moves_without_progress_ends_the_game_automatically() {
    let mut game = position(ROOK_ENDGAME_FEN, 149);
    game.apply(mv("a1", "a2")).unwrap();
    assert_eq!(game.outcome(), Some(Outcome::SeventyFiveMoveRule));
    assert!(game.outcome().unwrap().is_draw());
}

#[test]
fn a_capture_resets_the_fifty_move_clock() {
    let mut game = position("7k/8/8/8/8/8/7r/K6R w - - 0 1", 99);
    game.apply(Move::new(sq("h1"), sq("h2"))).unwrap();
    assert_eq!(game.claimable_draw(), None);
}

#[test]
fn a_pawn_move_resets_the_fifty_move_clock() {
    let mut game = position("7k/8/8/8/8/4p3/8/K2R4 w - - 0 1", 99);
    game.apply(mv("a1", "a2")).unwrap();
    assert_eq!(game.claimable_draw(), Some(ClaimableDraw::FiftyMoveRule));
    game.apply(mv("e3", "e2")).unwrap();
    assert_eq!(game.claimable_draw(), None);
}

// --- threefold repetition, claimable then automatic at fivefold -------------

fn shuffle() -> [Move; 4] {
    [
        mv("g1", "f3"),
        mv("g8", "f6"),
        mv("f3", "g1"),
        mv("f6", "g8"),
    ]
}

#[test]
fn repetition_is_claimable_at_three_and_automatic_at_five() {
    let mut game = Game::new();
    // Round 1: the starting position recurs for the 2nd time.
    for m in shuffle() {
        game.apply(m).unwrap();
    }
    assert_eq!(game.claimable_draw(), None);

    // Round 2: the 3rd occurrence: claimable, not automatic.
    for m in shuffle() {
        game.apply(m).unwrap();
    }
    assert_eq!(
        game.claimable_draw(),
        Some(ClaimableDraw::ThreefoldRepetition)
    );
    assert_eq!(game.outcome(), None);

    // Round 3: the 4th occurrence, still nothing forced.
    for m in shuffle() {
        game.apply(m).unwrap();
    }
    assert_eq!(game.outcome(), None);

    // Round 4: the 5th occurrence is automatic.
    for m in shuffle() {
        game.apply(m).unwrap();
    }
    assert_eq!(game.outcome(), Some(Outcome::FivefoldRepetition));
}

#[test]
fn claiming_threefold_repetition_ends_the_game() {
    let mut game = Game::new();
    for _ in 0..2 {
        for m in shuffle() {
            game.apply(m).unwrap();
        }
    }
    assert_eq!(game.claim_draw(), Ok(ClaimableDraw::ThreefoldRepetition));
    assert_eq!(
        game.outcome(),
        Some(Outcome::Claimed(ClaimableDraw::ThreefoldRepetition))
    );
}

#[test]
fn losing_a_castling_right_makes_a_different_position() {
    // The pieces stand as before, but the king has moved: not a repetition.
    let mut game = position("4k3/8/8/8/8/8/8/R3K3 w Q - 0 1", 0);
    let steps = [
        mv("e1", "e2"),
        mv("e8", "e7"),
        mv("e2", "e1"),
        mv("e7", "e8"),
    ];
    for _ in 0..2 {
        for m in steps {
            game.apply(m).unwrap();
        }
    }
    // The placement has stood three times, but with the right only once.
    assert_eq!(game.claimable_draw(), None);
    for m in steps {
        game.apply(m).unwrap();
    }
    assert_eq!(
        game.claimable_draw(),
        Some(ClaimableDraw::ThreefoldRepetition)
    );
}

// --- game-over refuses further moves ----------------------------------------

#[test]
fn a_finished_game_refuses_further_moves() {
    let mut game = position("7k/6pp/8/8/8/8/8/K3Q3 w - - 0 1", 0);
    game.apply(mv("e1", "e8")).unwrap();
    assert_eq!(game.apply(mv("a1", "a2")), Err(MoveError::GameOver));
}

#[test]
fn ply_counts_accepted_moves_and_claims_but_not_refused_ones() {
    let mut game = Game::new();
    assert_eq!(game.ply(), 0);
    game.apply(mv("e2", "e4")).unwrap();
    assert_eq!(game.ply(), 1);
    assert_eq!(game.apply(mv("e2", "e4")), Err(MoveError::EmptySquare));
    assert_eq!(game.ply(), 1, "a refused move does not count");
}

#[test]
fn there_is_no_piece_to_move_from_an_empty_square() {
    let mut game = Game::new();
    assert_eq!(game.apply(mv("e4", "e5")), Err(MoveError::EmptySquare));
}

#[test]
fn a_side_may_not_move_its_opponents_piece() {
    let mut game = Game::new();
    assert_eq!(game.apply(mv("e7", "e5")), Err(MoveError::WrongColor));
}

// --- set-up positions -------------------------------------------------------

#[test]
fn notation_without_a_king_or_with_the_wrong_side_in_check_is_refused() {
    assert!(Game::from_fen("8/8/8/8/8/8/8/K7 w - - 0 1").is_none());
    assert!(Game::from_fen("k7/8/8/8/8/8/8/8 w - - 0 1").is_none());
    assert!(Game::from_fen("k6R/8/8/8/8/8/8/K7 w - - 0 1").is_none());
    assert!(Game::from_fen("hello").is_none());
    assert!(Game::from_fen("").is_none());
    assert!(Game::from_fen("k7/8/8/8/8/8/8/K6x w - - 0 1").is_none());
    assert!(Game::from_fen("k7/8/8/8/8/8/8/K7 w - - 0 1").is_some());
}

#[test]
fn an_oversized_army_is_set_up_but_not_playable() {
    let crowded = Game::from_fen("k7/8/8/8/8/QQQQQQQQ/PPPPPPPP/4K3 w - - 0 1");
    if let Some(game) = crowded {
        assert!(!game.is_playable());
    }
    assert!(Game::new().is_playable());
}

// --- decisions on given moves -----------------------------------------------

#[test]
fn the_move_a_player_means_is_picked_out_of_those_generated() {
    // a2 to a3, and e7 to e8 as a queen or a knight.
    let moves = vec![(8, 16, None), (52, 60, Some(4)), (52, 60, Some(1))];
    assert_eq!(choose_move(&moves, mv("a2", "a3")), Ok((8, 16, None)));
    assert_eq!(choose_move(&moves, mv("a2", "a4")), Err(MoveError::Illegal));
    assert_eq!(
        choose_move(&moves, mv("e7", "e8")),
        Err(MoveError::PromotionRequired)
    );
    assert_eq!(
        choose_move(
            &moves,
            Move::promoting(sq("e7"), sq("e8"), PieceKind::Knight)
        ),
        Ok((52, 60, Some(1)))
    );
    assert_eq!(
        choose_move(&moves, Move::promoting(sq("e7"), sq("e8"), PieceKind::Rook)),
        Err(MoveError::Illegal)
    );
    assert_eq!(
        choose_move(&moves, Move::promoting(sq("a2"), sq("a3"), PieceKind::Rook)),
        Err(MoveError::PromotionNotAllowed)
    );
}

#[test]
fn each_destination_is_listed_once_in_the_order_generated() {
    let moves = vec![
        (52, 61, Some(4)),
        (8, 16, None),
        (52, 60, Some(4)),
        (52, 60, Some(1)),
        (52, 61, Some(1)),
    ];
    assert_eq!(
        destinations_from(&moves, sq("e7")),
        vec![sq("f8"), sq("e8")]
    );
    assert_eq!(destinations_from(&moves, sq("a2")), vec![sq("a3")]);
    assert!(destinations_from(&moves, sq("h1")).is_empty());
}

#[test]
fn a_knight_in_the_corner_has_its_two_destinations() {
    let game = Game::new();
    let mut names: Vec<String> = game
        .legal_destinations(sq("b1"))
        .into_iter()
        .map(Square::name)
        .collect();
    names.sort();
    assert_eq!(names, vec!["a3", "c3"]);
    assert!(game.legal_destinations(sq("b8")).is_empty(), "not to move");
    assert!(game.legal_destinations(sq("e4")).is_empty(), "empty");
}

#[test]
fn the_first_reason_a_game_ends_is_the_one_given() {
    let mate = automatic_outcome(Status::Checkmate, Color::Black, true, 9, 200);
    assert_eq!(
        mate,
        Some(Outcome::Checkmate {
            winner: Color::White
        })
    );
    assert!(!mate.unwrap().is_draw());
    assert_eq!(
        automatic_outcome(Status::Stalemate, Color::White, true, 9, 200),
        Some(Outcome::Stalemate)
    );
    assert_eq!(
        automatic_outcome(Status::Ongoing, Color::White, true, 9, 200),
        Some(Outcome::InsufficientMaterial)
    );
    assert_eq!(
        automatic_outcome(Status::Ongoing, Color::White, false, 5, 200),
        Some(Outcome::FivefoldRepetition)
    );
    assert_eq!(
        automatic_outcome(Status::Ongoing, Color::White, false, 4, 150),
        Some(Outcome::SeventyFiveMoveRule)
    );
    assert_eq!(
        automatic_outcome(Status::Ongoing, Color::White, false, 4, 149),
        None
    );
}

// --- history ----------------------------------------------------------------

#[test]
fn a_saved_game_loads_back_to_the_same_position() {
    let mut game = Game::new();
    game.apply(Move::new(sq("e2"), sq("e4"))).unwrap();
    game.apply(Move::new(sq("e7"), sq("e5"))).unwrap();
    game.apply(Move::new(sq("g1"), sq("f3"))).unwrap();

    let loaded = Game::from_events(game.events()).expect("load succeeds");
    assert_eq!(loaded.side_to_move(), game.side_to_move());
    assert_eq!(loaded.outcome(), game.outcome());
    assert_eq!(
        loaded.piece_at(sq("f3")),
        Some((Color::White, PieceKind::Knight))
    );
    for square in Square::all() {
        assert_eq!(loaded.piece_at(square), game.piece_at(square));
    }
    assert_eq!(loaded.events(), game.events());
}

#[test]
fn a_replayed_game_keeps_its_repetitions_and_its_claim() {
    let mut game = Game::new();
    for _ in 0..2 {
        for m in shuffle() {
            game.apply(m).unwrap();
        }
    }
    let loaded = Game::from_events(game.events()).expect("load succeeds");
    assert_eq!(
        loaded.claimable_draw(),
        Some(ClaimableDraw::ThreefoldRepetition)
    );
    game.claim_draw().unwrap();
    let loaded = Game::from_events(game.events()).expect("load succeeds");
    assert_eq!(loaded.outcome(), game.outcome());
    assert_eq!(loaded.ply(), 9);
}

#[test]
fn a_history_that_does_not_replay_legally_is_reported_as_corrupt() {
    let mut one_move = Game::new();
    one_move.apply(Move::new(sq("e2"), sq("e4"))).unwrap();
    let mut twice = one_move.events().clone();
    twice.extend(one_move.events().clone());
    // e2 is empty the second time, and it is not White's turn again.
    match Game::from_events(&twice) {
        Err(reason) => assert_eq!(reason, "there is no piece on that square"),
        Ok(_) => panic!("expected a corrupt replay"),
    }

    let claim = vec![GameEvent::ClaimDraw {
        reason: ClaimableDraw::FiftyMoveRule,
    }];
    match Game::from_events(&claim) {
        Err(reason) => assert_eq!(reason, "no claimable draw is available"),
        Ok(_) => panic!("nothing was claimable"),
    }
}

#[test]
fn a_recorded_claim_of_the_wrong_draw_is_reported() {
    let mut game = Game::new();
    for _ in 0..2 {
        for m in shuffle() {
            game.apply(m).unwrap();
        }
    }
    let mut events = game.events().clone();
    events.push(GameEvent::ClaimDraw {
        reason: ClaimableDraw::FiftyMoveRule,
    });
    match Game::from_events(&events) {
        Err(reason) => assert_eq!(
            reason,
            "recorded claim FiftyMoveRule does not match the draw actually available \
             (ThreefoldRepetition)"
        ),
        Ok(_) => panic!("expected a corrupt replay"),
    }
}

#[test]
fn every_refusal_says_why() {
    assert_eq!(MoveError::GameOver.message(), "the game is over");
    assert_eq!(
        MoveError::WrongColor.message(),
        "that piece belongs to the side not to move"
    );
    assert_eq!(MoveError::Illegal.message(), "that is not a legal move");
    assert_eq!(
        MoveError::PromotionRequired.message(),
        "a promotion piece is required"
    );
    assert_eq!(
        MoveError::PromotionNotAllowed.message(),
        "that move does not promote a pawn"
    );
    assert_eq!(ClaimError::GameOver.message(), "the game is over");
}

// --- positions that are set up ----------------------------------------------

#[test]
fn a_mated_position_is_over_as_soon_as_it_is_set_up() {
    let game = Game::from_fen("4Q2k/6pp/8/8/8/8/8/K7 b - - 0 1").expect("valid FEN");
    assert!(game.is_in_check());
    assert_eq!(
        game.outcome(),
        Some(Outcome::Checkmate {
            winner: Color::White
        })
    );
    let mut game = game;
    assert_eq!(game.apply(mv("h7", "h6")), Err(MoveError::GameOver));

    let game = Game::from_fen("7k/5Q2/6K1/8/8/8/8/8 b - - 0 1").expect("valid FEN");
    assert!(!game.is_in_check());
    assert_eq!(game.outcome(), Some(Outcome::Stalemate));

    let game = Game::from_fen("4Q2k/7p/8/8/8/8/8/K7 b - - 0 1").expect("valid FEN");
    assert!(game.is_in_check());
    assert_eq!(game.outcome(), None, "the king has a way out");
}

#[test]
fn a_pawn_may_become_any_of_the_four_pieces() {
    for kind in [
        PieceKind::Queen,
        PieceKind::Rook,
        PieceKind::Bishop,
        PieceKind::Knight,
    ] {
        let mut game = Game::from_fen("8/4P2k/8/8/8/8/8/K7 w - - 0 1").expect("valid FEN");
        game.apply(Move::promoting(sq("e7"), sq("e8"), kind))
            .expect("every choice is legal");
        assert_eq!(game.piece_at(sq("e8")), Some((Color::White, kind)));
    }
    let mut game = Game::from_fen("8/4P2k/8/8/8/8/8/K7 w - - 0 1").expect("valid FEN");
    for kind in [PieceKind::Pawn, PieceKind::King] {
        assert_eq!(
            game.apply(Move::promoting(sq("e7"), sq("e8"), kind)),
            Err(MoveError::Illegal)
        );
    }
}

#[test]
fn large_armies_are_playable_as_far_as_their_moves_can_be_listed() {
    // Eighteen pieces that all can move, and no pawns.
    let mut game =
        Game::from_fen("7k/8/8/8/8/NNNNNNNN/NNNNNNNN/KN6 w - - 0 1").expect("valid FEN");
    assert!(game.is_playable());
    game.apply(mv("h3", "g5")).expect("a knight's move");
    assert!(game.is_playable());
    // Seventeen, one of them a pawn.
    let game = Game::from_fen("7k/8/8/8/8/NNNNNNNN/NNNNNNNP/K7 w - - 0 1").expect("valid FEN");
    assert!(game.is_playable());
    // Nineteen pieces, or seventeen with two pawns, may be too many.
    for fen in [
        "7k/8/8/8/8/NNNNNNNN/NNNNNNNN/KNN5 w - - 0 1",
        "7k/8/8/8/8/NNNNNNNN/NNNNNNPP/K7 w - - 0 1",
    ] {
        let game = Game::from_fen(fen).expect("valid FEN");
        assert!(!game.is_playable());
        assert_eq!(game.outcome(), None);
    }
}

#[test]
fn a_copied_game_goes_its_own_way() {
    let mut game = Game::new();
    game.apply(mv("e2", "e4")).expect("legal");
    let copy = game.clone();
    game.apply(mv("e7", "e5")).expect("legal");
    assert_eq!(copy.ply(), 1);
    assert_eq!(copy.side_to_move(), Color::Black);
    assert_eq!(copy.piece_at(sq("e4")), game.piece_at(sq("e4")));
    assert_eq!(game.ply(), 2);
}
