//! What the Chess screen promises, tap by tap.
//!
//! Each law speaks of where a tap landed, of the piece picked up, and of the
//! moves the rules accept.

use vstd::prelude::*;

use crate::action::Action;
use crate::chess::board::{grid_place, Square};
use crate::chess::pieces::{piece_of, side_of, Piece, Side};
use crate::chess::screen::{
    pressed, ringed, rules_square, selection_line, status_line, ChessHits, ChessScreen,
};
use crate::chess::shapes::{
    outlines, BASE, BISHOP_BODY, BISHOP_COLLAR, BISHOP_MITRE, KING_BODY, KING_COLLAR, KING_CROSS,
    KING_CROWN, KNIGHT_HEAD, PAWN_BODY, PAWN_HEAD, QUEEN_BODY, QUEEN_COLLAR, QUEEN_CROWN,
    ROOK_BATTLEMENT, ROOK_BODY, ROOK_COLLAR,
};
use crate::chess_rules::board::{candidate_shape, check_count, generated, kind_index};
use crate::chess_rules::game::{
    advanced, claimable, claimed, lemma_destinations, start_game, verdict, ClaimableDraw, GameView,
    Outcome,
};
use crate::chess_rules::laws::{
    is_generated, is_generated_soundly, law_listed_moves_are_accepted, law_refusals_say_why, leads,
};
use crate::chess_rules::types::{Color, Move, PieceKind};

verus! {

/// A tap on a square of the board and on nothing else.
pub open spec fn on_square(square: Square) -> ChessHits {
    ChessHits {
        tap: true,
        picker: false,
        promotion: None,
        claim_draw: false,
        home: false,
        flip_board: false,
        new_game: false,
        square: Some(square),
    }
}

/// A tap on a piece of the promotion picker.
pub open spec fn on_choice(kind: PieceKind) -> ChessHits {
    ChessHits { picker: true, promotion: Some(kind), square: None, ..on_square_none() }
}

/// A tap on nothing.
pub open spec fn on_square_none() -> ChessHits {
    ChessHits {
        tap: true,
        picker: false,
        promotion: None,
        claim_draw: false,
        home: false,
        flip_board: false,
        new_game: false,
        square: None,
    }
}

/// The same square, as the rules name it: file for file and rank for rank.
pub open spec fn is_same_square(square: Square, rules: crate::chess_rules::Square) -> bool {
    rules.file@ == square.file@ && rules.rank@ == square.rank@
}

/// A screen square and its rules square are the same square.
pub proof fn law_squares_keep_their_place(square: Square)
    requires
        square.wf(),
    ensures
        is_same_square(square, rules_square(square)),
        rules_square(square)@ == square@,
        square@ == 8 * square.rank@ + square.file@,
{
}

/// Two taps play a move: with nothing picked up, a tap on a piece of the side to
/// move and then one on a square that it may go to without promoting make
/// exactly that move, and leave nothing picked up.
pub proof fn law_two_taps_play_a_move(
    screen: ChessScreen,
    game: GameView,
    from: Square,
    to: Square,
    mv: Move,
)
    requires
        game.outcome is None,
        is_generated_soundly(game.board),
        screen.selected is None,
        from.wf() && to.wf(),
        is_same_square(from, mv.from) && is_same_square(to, mv.to),
        mv.wf(),
        mv.promotion is None,
        is_generated(game.board, mv),
    ensures
        ({
            let first = pressed(screen, game, on_square(from));
            let second = pressed(first.screen, first.game, on_square(to));
            &&& first.screen.selected == Some(from)
            &&& first.game == game
            &&& first.action == Action::Redraw
            &&& verdict(game, mv) is Ok
            &&& second.game == advanced(game, mv, verdict(game, mv)->Ok_0)
            &&& second.screen.selected is None
            &&& second.screen.pending_promotion == screen.pending_promotion
            &&& second.action == Action::Redraw
        }),
{
    let moves = generated(game.board);
    law_listed_moves_are_accepted(game, mv);
    let k = choose|k: int|
        0 <= k < moves.len() && (#[trigger] moves[k]).0 as int == mv.from@ && moves[k].1 as int
            == mv.to@ && moves[k].2 is None;
    assert(candidate_shape(game.board, moves[k]));
    assert(rules_square(from) == mv.from);
    assert(rules_square(to) == mv.to);
    assert(moves[k].0 == from@ && moves[k].1 == to@);
}

/// Three taps promote: after the two that take a pawn to its far rank nothing
/// has moved and the choice is open, and the piece that is then tapped is the
/// one the pawn becomes.
pub proof fn law_three_taps_promote(
    screen: ChessScreen,
    game: GameView,
    from: Square,
    to: Square,
    mv: Move,
)
    requires
        game.outcome is None,
        is_generated_soundly(game.board),
        screen.selected is None,
        from.wf() && to.wf(),
        is_same_square(from, mv.from) && is_same_square(to, mv.to),
        mv.wf(),
        mv.promotion is Some,
        is_generated(game.board, mv),
    ensures
        ({
            let first = pressed(screen, game, on_square(from));
            let second = pressed(first.screen, first.game, on_square(to));
            let third = pressed(second.screen, second.game, on_choice(mv.promotion->0));
            &&& second.game == game
            &&& second.screen.pending_promotion == Some((from, to))
            &&& verdict(game, mv) is Ok
            &&& third.game == advanced(game, mv, verdict(game, mv)->Ok_0)
            &&& third.screen.pending_promotion is None
            &&& third.screen.selected is None
        }),
{
    let moves = generated(game.board);
    law_listed_moves_are_accepted(game, mv);
    let k = choose|k: int|
        0 <= k < moves.len() && (#[trigger] moves[k]).0 as int == mv.from@ && moves[k].1 as int
            == mv.to@ && moves[k].2 == Some(kind_index(mv.promotion->0));
    assert(candidate_shape(game.board, moves[k]));
    assert(rules_square(from) == mv.from);
    assert(rules_square(to) == mv.to);
    assert(moves[k].0 == from@ && moves[k].1 == to@);
    let bare = Move { promotion: None, ..mv };
    law_refusals_say_why(game, bare);
    assert((mv.to.rank@ * 8 + mv.to.file@) / 8 == mv.to.rank@);
    assert(leads(game.board, bare.from, bare.to));
}

/// With a piece picked up, a tap where it may not go moves nothing: it picks up
/// what the side to move has there, and otherwise lets go; a tap on the piece
/// itself lets go. With nothing picked up, only a piece of the side to move can
/// be picked up.
pub proof fn law_other_taps_move_nothing(screen: ChessScreen, game: GameView, square: Square)
    requires
        game.outcome is None,
        screen.selected is None || screen.selected->0 == square || forall|k: int|
            0 <= k < generated(game.board).len() ==> !((#[trigger] generated(game.board)[k]).0
                as int == screen.selected->0@ && generated(game.board)[k].1 as int == square@),
    ensures
        ({
            let step = pressed(screen, game, on_square(square));
            let piece = game.board.pieces[square@];
            let own = piece is Some && (piece->0).0 == game.board.turn;
            &&& step.game == game
            &&& step.action == Action::Redraw
            &&& step.screen.selected == (if own && screen.selected != Some(square) {
                Some(square)
            } else {
                None
            })
            &&& step.screen.pending_promotion == screen.pending_promotion
            &&& step.screen.flipped == screen.flipped
            &&& !step.screen.new_game_armed
        }),
{
}

/// The footer: a claim makes the draw that is available and nothing without one;
/// flipping turns the board round and touches neither the game nor the piece
/// picked up, and turning it twice turns it back; the second tap on new game
/// starts over with nothing picked up.
pub proof fn law_the_footer_does_what_it_says(
    screen: ChessScreen,
    game: GameView,
    hits: ChessHits,
)
    requires
        hits.tap,
        !hits.picker,
    ensures
        ({
            let step = pressed(screen, game, hits);
            &&& hits.claim_draw ==> step.screen == screen && step.action == Action::Redraw
                && step.game == (match claimable(game) {
                Some(claim) => claimed(game, claim),
                None => game,
            })
            &&& !hits.claim_draw && !hits.home && hits.flip_board ==> step.game == game
                && step.screen.flipped == !screen.flipped && step.screen.selected
                == screen.selected && pressed(step.screen, game, hits).screen.flipped
                == screen.flipped
            &&& !hits.claim_draw && !hits.home && !hits.flip_board && hits.new_game
                && screen.new_game_armed ==> step.game == start_game()
                && step.screen.selected is None && !step.screen.new_game_armed
                && step.screen.flipped == screen.flipped
            &&& !hits.claim_draw && !hits.home && !hits.flip_board && !hits.new_game
                && hits.square is None ==> step.game == game && step.action == Action::Nothing
                && step.screen.selected == screen.selected
        }),
{
}

/// While a promotion is to be chosen, a tap beside the choices changes nothing,
/// and one on a choice makes the move that waits with that piece, where the
/// rules accept it, and closes the picker either way.
pub proof fn law_the_picker_makes_the_move_that_waits(
    screen: ChessScreen,
    game: GameView,
    hits: ChessHits,
)
    requires
        hits.tap,
        hits.picker,
    ensures
        ({
            let step = pressed(screen, game, hits);
            &&& hits.promotion is None || screen.pending_promotion is None ==> step.screen == screen
                && step.game == game
            &&& hits.promotion is Some && screen.pending_promotion is Some ==> {
                let (from, to) = screen.pending_promotion->0;
                let mv = Move {
                    from: rules_square(from),
                    to: rules_square(to),
                    promotion: hits.promotion,
                };
                &&& step.screen.pending_promotion is None
                &&& step.screen.selected is None
                &&& verdict(game, mv) is Ok ==> step.game == advanced(
                    game,
                    mv,
                    verdict(game, mv)->Ok_0,
                )
                &&& verdict(game, mv) is Err ==> step.game == game
            }
        }),
{
}

/// The squares ringed are those the piece picked up may go to, each once.
pub proof fn law_rings_are_where_the_piece_may_go(
    screen: ChessScreen,
    game: GameView,
    to: int,
)
    ensures
        screen.selected is None || game.outcome is Some ==> ringed(screen, game).len() == 0,
        screen.selected is Some && game.outcome is None ==> (ringed(screen, game).contains(to)
            <==> exists|k: int|
            0 <= k < generated(game.board).len() && (#[trigger] generated(game.board)[k]).0
                == screen.selected->0@ && generated(game.board)[k].1 == to),
        ringed(screen, game).no_duplicates(),
{
    if screen.selected is Some {
        lemma_destinations(
            generated(game.board),
            screen.selected->0@,
            generated(game.board).len() as int,
        );
    }
}

/// White's home corner is at the bottom left, and at the top right once the
/// board is turned; files run to the right and ranks upwards, and turned the
/// other way.
pub proof fn law_the_board_stands_as_it_is_turned(file: int, rank: int)
    ensures
        grid_place(0, 0, false) == (0int, 7int),
        grid_place(0, 0, true) == (7int, 0int),
        grid_place(file + 1, rank, false).0 == grid_place(file, rank, false).0 + 1,
        grid_place(file, rank + 1, false).1 == grid_place(file, rank, false).1 - 1,
        grid_place(file + 1, rank, true).0 == grid_place(file, rank, true).0 - 1,
        grid_place(file, rank + 1, true).1 == grid_place(file, rank, true).1 + 1,
        grid_place(file, rank, false).0 == file,
        grid_place(file, rank, true).1 == rank,
{
}

/// A side and a piece are drawn as themselves.
pub proof fn law_pieces_are_drawn_as_themselves(kind: PieceKind, color: Color)
    ensures
        side_of(Color::White) == Side::White,
        side_of(Color::Black) == Side::Black,
        piece_of(PieceKind::Pawn) == Piece::Pawn,
        piece_of(PieceKind::Knight) == Piece::Knight,
        piece_of(PieceKind::Bishop) == Piece::Bishop,
        piece_of(PieceKind::Rook) == Piece::Rook,
        piece_of(PieceKind::Queen) == Piece::Queen,
        piece_of(PieceKind::King) == Piece::King,
{
}

/// The status line names the side to move and says check where there is one; of
/// a finished game it says how it ended and, after a mate, who won.
pub proof fn law_the_status_line_tells_the_state(game: GameView)
    ensures
        ({
            let side = if game.board.turn == Color::White {
                "WHITE"@
            } else {
                "BLACK"@
            };
            &&& game.outcome is None && check_count(game.board) == 0 ==> status_line(game) == side
                + " TO MOVE"@
            &&& game.outcome is None && check_count(game.board) > 0 ==> status_line(game) == side
                + " TO MOVE \u{00B7} CHECK"@
            &&& game.outcome == Some(Outcome::Checkmate { winner: Color::White }) ==> status_line(
                game,
            ) == "CHECKMATE \u{00B7} "@ + "WHITE"@ + " WINS"@
            &&& game.outcome == Some(Outcome::Checkmate { winner: Color::Black }) ==> status_line(
                game,
            ) == "CHECKMATE \u{00B7} "@ + "BLACK"@ + " WINS"@
            &&& game.outcome == Some(Outcome::Stalemate) ==> status_line(game)
                == "STALEMATE \u{00B7} DRAW"@
            &&& game.outcome == Some(Outcome::InsufficientMaterial) ==> status_line(game)
                == "DRAW \u{00B7} INSUFFICIENT MATERIAL"@
            &&& game.outcome == Some(Outcome::FivefoldRepetition) ==> status_line(game)
                == "DRAW \u{00B7} FIVEFOLD REPETITION"@
            &&& game.outcome == Some(Outcome::SeventyFiveMoveRule) ==> status_line(game)
                == "DRAW \u{00B7} 75-MOVE RULE"@
            &&& game.outcome == Some(Outcome::Claimed(ClaimableDraw::ThreefoldRepetition))
                ==> status_line(game) == "DRAW CLAIMED \u{00B7} THREEFOLD REPETITION"@
            &&& game.outcome == Some(Outcome::Claimed(ClaimableDraw::FiftyMoveRule)) ==> status_line(
                game,
            ) == "DRAW CLAIMED \u{00B7} FIFTY-MOVE RULE"@
        }),
{
}

/// The selection line names the square picked up, its letter in capitals, unless
/// a promotion is to be chosen.
pub proof fn law_the_selection_line_names_the_square(screen: ChessScreen)
    requires
        screen.wf(),
    ensures
        screen.pending_promotion is Some ==> selection_line(screen) == "CHOOSE PROMOTION"@,
        screen.pending_promotion is None && screen.selected is None ==> selection_line(screen)
            == "--"@,
        screen.pending_promotion is None && screen.selected is Some ==> selection_line(screen).len()
            == 2 && selection_line(screen)[0] as int == 'A' as int + screen.selected->0.file@
            && selection_line(screen)[1] as int == '1' as int + screen.selected->0.rank@,
{
}

/// Each piece is drawn from its own parts, from the top down, and stands on the
/// base.
pub proof fn law_pieces_are_made_of_their_parts(piece: Piece)
    ensures
        outlines(piece).last() == BASE@,
        piece is Pawn ==> outlines(piece).drop_last() == seq![PAWN_HEAD@, PAWN_BODY@],
        piece is Knight ==> outlines(piece).drop_last() == seq![KNIGHT_HEAD@],
        piece is Bishop ==> outlines(piece).drop_last() == seq![
            BISHOP_MITRE@,
            BISHOP_COLLAR@,
            BISHOP_BODY@,
        ],
        piece is Rook ==> outlines(piece).drop_last() == seq![
            ROOK_BATTLEMENT@,
            ROOK_COLLAR@,
            ROOK_BODY@,
        ],
        piece is Queen ==> outlines(piece).drop_last() == seq![
            QUEEN_CROWN@,
            QUEEN_COLLAR@,
            QUEEN_BODY@,
        ],
        piece is King ==> outlines(piece).drop_last() == seq![
            KING_CROSS@,
            KING_CROWN@,
            KING_COLLAR@,
            KING_BODY@,
        ],
{
}

} // verus!
