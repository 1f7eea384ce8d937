//! What the rules promise, square by square and move by move.
//!
//! Each law speaks of the board, of the generated moves and of the positions
//! that have stood, rather than of how a verdict or an ending is worked out.

use vstd::prelude::*;

use crate::chess_rules::board::{
    army, candidate_shape, check_count, field_end, generated, is_piece_letter, kind_count,
    kind_index, moved, offers_every_promotion, placed, places_kings, playable, start_view,
    status_of, BoardView, Candidate, Status,
};
use crate::chess_rules::error::{ClaimError, MoveError};
use crate::chess_rules::game::{
    advanced, capture_of, claim_mismatch, claimable, claimed, destinations, lemma_destinations,
    occurrences, record_of, replayed, set_up, start_game, verdict, ClaimableDraw, GameEvent,
    GameView, Outcome,
};
use crate::chess_rules::types::{is_square_name, square_name, Color, Move, PieceKind, Square};

verus! {

/// What the generator gives of every position it is asked about: moves of the
/// side to move, each promoting where it must, to any of the four pieces.
pub open spec fn is_generated_soundly(board: BoardView) -> bool {
    &&& board.wf()
    &&& forall|k: int|
        0 <= k < generated(board).len() ==> candidate_shape(board, #[trigger] generated(board)[k])
    &&& offers_every_promotion(generated(board))
}

/// Some generated move goes from one square to another and makes the pawn, if
/// one is asked for, that piece.
pub open spec fn is_generated(board: BoardView, mv: Move) -> bool {
    exists|k: int|
        0 <= k < generated(board).len() && (#[trigger] generated(board)[k]).0 as int == mv.from@
            && generated(board)[k].1 as int == mv.to@ && (match mv.promotion {
            Some(kind) => generated(board)[k].2 == Some(kind_index(kind)),
            None => generated(board)[k].2 is None,
        })
}

/// Some generated move goes from one square to another, whatever it makes of a
/// pawn.
pub open spec fn leads(board: BoardView, from: Square, to: Square) -> bool {
    exists|k: int|
        0 <= k < generated(board).len() && (#[trigger] generated(board)[k]).0 as int == from@
            && generated(board)[k].1 as int == to@
}

/// A move is accepted exactly where the game goes on and the generator lists
/// it, whatever the piece.
pub proof fn law_listed_moves_are_accepted(game: GameView, mv: Move)
    requires
        mv.wf(),
        is_generated_soundly(game.board),
    ensures
        verdict(game, mv) is Ok <==> game.outcome is None && is_generated(game.board, mv),
        verdict(game, mv) is Ok ==> {
            let candidate = verdict(game, mv)->Ok_0;
            &&& candidate.0 as int == mv.from@
            &&& candidate.1 as int == mv.to@
            &&& generated(game.board).contains(candidate)
            &&& (mv.promotion is None ==> candidate.2 is None)
            &&& (mv.promotion is Some ==> candidate.2 == Some(kind_index(mv.promotion->0)))
        },
{
    let moves = generated(game.board);
    let wanted: Candidate = (
        mv.from@ as u8,
        mv.to@ as u8,
        match mv.promotion {
            Some(kind) => Some(kind_index(kind)),
            None => None,
        },
    );
    if is_generated(game.board, mv) {
        let k = choose|k: int|
            0 <= k < moves.len() && (#[trigger] moves[k]).0 as int == mv.from@ && moves[k].1 as int
                == mv.to@ && (match mv.promotion {
                Some(kind) => moves[k].2 == Some(kind_index(kind)),
                None => moves[k].2 is None,
            });
        assert(candidate_shape(game.board, moves[k]));
        assert(moves[k] == wanted);
        assert(moves.contains(wanted));
        assert forall|j: int|
            0 <= j < moves.len() && (#[trigger] moves[j]).0 as int == mv.from@ && moves[j].1 as int
                == mv.to@ implies (moves[j].2 is Some <==> moves[k].2 is Some) by {
            assert(candidate_shape(game.board, moves[j]));
        }
    }
    if verdict(game, mv) is Ok {
        if mv.promotion is None {
            let j = choose|j: int|
                0 <= j < moves.len() && (#[trigger] moves[j]).0 as int == mv.from@
                    && moves[j].1 as int == mv.to@;
            assert(moves[j] == wanted);
        } else {
            let j = choose|j: int| 0 <= j < moves.len() && moves[j] == wanted;
            assert(moves[j].0 as int == mv.from@);
        }
        assert(moves.contains(wanted));
    }
}

/// Every refusal says what is wrong, and nothing else is refused for it: that
/// the game is over, that the square is empty, that the piece is the other
/// side's, that no such move is generated, or what is the matter with the
/// promotion.
pub proof fn law_refusals_say_why(game: GameView, mv: Move)
    requires
        mv.wf(),
        is_generated_soundly(game.board),
    ensures
        ({
            let refused = |error: MoveError|
                verdict(game, mv) == Err::<Candidate, MoveError>(error);
            let piece = game.board.pieces[mv.from@];
            let own = piece is Some && (piece->0).0 == game.board.turn;
            let led = leads(game.board, mv.from, mv.to);
            let last = mv.to.rank@ == (if game.board.turn == Color::White {
                7int
            } else {
                0int
            });
            let promoting = own && (piece->0).1 == PieceKind::Pawn && last;
            &&& refused(MoveError::GameOver) <==> game.outcome is Some
            &&& refused(MoveError::EmptySquare) <==> game.outcome is None && piece is None
            &&& refused(MoveError::WrongColor) <==> game.outcome is None && piece is Some && !own
            &&& refused(MoveError::PromotionRequired) <==> game.outcome is None && led && promoting
                && mv.promotion is None
            &&& refused(MoveError::PromotionNotAllowed) <==> game.outcome is None && led
                && !promoting && mv.promotion is Some
            &&& refused(MoveError::Illegal) <==> game.outcome is None && own && (!led || (promoting
                && mv.promotion is Some && (mv.promotion->0 == PieceKind::Pawn || mv.promotion->0
                == PieceKind::King)))
        }),
{
    let moves = generated(game.board);
    assert((mv.to.rank@ * 8 + mv.to.file@) / 8 == mv.to.rank@);
    if leads(game.board, mv.from, mv.to) {
        let k = choose|k: int|
            0 <= k < moves.len() && (#[trigger] moves[k]).0 as int == mv.from@ && moves[k].1 as int
                == mv.to@;
        assert(candidate_shape(game.board, moves[k]));
        if mv.promotion is Some {
            let piece = kind_index(mv.promotion->0);
            let asked: Candidate = (mv.from@ as u8, mv.to@ as u8, Some(piece));
            if moves[k].2 is Some && 1 <= piece <= 4 {
                assert(moves.contains((moves[k].0, moves[k].1, Some(piece))));
                assert(moves.contains(asked));
            }
            if moves.contains(asked) {
                let j = choose|j: int| 0 <= j < moves.len() && moves[j] == asked;
                assert(candidate_shape(game.board, moves[j]));
            }
        }
    }
    assert forall|k: int|
        0 <= k < moves.len() && (#[trigger] moves[k]).0 as int == mv.from@ && moves[k].1 as int
            == mv.to@ implies leads(game.board, mv.from, mv.to) by {}
}

/// What is shown as a destination can be played, and what can be played is
/// shown: a square is a destination exactly where some move there, promoting or
/// not, is accepted.
pub proof fn law_destinations_can_be_played(game: GameView, from: Square, to: Square)
    requires
        from.wf(),
        to.wf(),
        game.outcome is None,
        is_generated_soundly(game.board),
    ensures
        destinations(generated(game.board), from@, generated(game.board).len() as int).contains(
            to@,
        ) <==> exists|promotion: Option<PieceKind>| #[trigger]
            verdict(game, Move { from, to, promotion }) is Ok,
{
    let moves = generated(game.board);
    lemma_destinations(moves, from@, moves.len() as int);
    let listed = destinations(moves, from@, moves.len() as int);
    if listed.contains(to@) {
        let k = choose|k: int|
            0 <= k < moves.len() && (#[trigger] moves[k]).0 == from@ && moves[k].1 == to@;
        assert(candidate_shape(game.board, moves[k]));
        let promotion = if moves[k].2 is Some {
            Some(PieceKind::Queen)
        } else {
            None
        };
        let mv = Move { from, to, promotion };
        law_listed_moves_are_accepted(game, mv);
        if moves[k].2 is Some {
            let queen: Candidate = (moves[k].0, moves[k].1, Some(4u8));
            assert(moves.contains(queen));
            let j = choose|j: int| 0 <= j < moves.len() && moves[j] == queen;
            assert(moves[j].0 as int == mv.from@);
        }
        assert(is_generated(game.board, mv));
        assert(verdict(game, Move { from, to, promotion }) is Ok);
    }
    assert forall|promotion: Option<PieceKind>| #[trigger]
        verdict(game, Move { from, to, promotion }) is Ok implies listed.contains(to@) by {
        let mv = Move { from, to, promotion };
        law_listed_moves_are_accepted(game, mv);
        let candidate = verdict(game, mv)->Ok_0;
        let k = choose|k: int| 0 <= k < moves.len() && moves[k] == candidate;
        assert(moves[k].0 == from@ && moves[k].1 == to@);
    }
}

/// An accepted move hands the position on as the generator's board has it, is
/// recorded as it was asked for, and adds its position to those that have
/// stood, leaving the earlier ones alone.
pub proof fn law_a_move_is_recorded(game: GameView, mv: Move)
    requires
        verdict(game, mv) is Ok,
    ensures
        ({
            let next = advanced(game, mv, verdict(game, mv)->Ok_0);
            &&& next.board == moved(game.board, verdict(game, mv)->Ok_0)
            &&& next.events.len() == game.events.len() + 1
            &&& next.events.last() == (GameEvent::Move {
                from: mv.from,
                to: mv.to,
                promotion: mv.promotion,
            })
            &&& next.events.drop_last() == game.events
            &&& next.history.len() == game.history.len() + 1
            &&& next.history.last() == next.board
            &&& next.history.drop_last() == game.history
        }),
{
    let next = advanced(game, mv, verdict(game, mv)->Ok_0);
    assert(next.events.drop_last() =~= game.events);
    assert(next.history.drop_last() =~= game.history);
}

/// What a move captures is what stood where it goes; a pawn that changes file
/// onto an empty square takes a pawn; nothing else takes anything.
pub proof fn law_captures_are_what_stood_there(board: BoardView, from: Square, to: Square)
    requires
        board.pieces[from@] is Some,
    ensures
        board.pieces[to@] is None && (board.pieces[from@]->0).1 == PieceKind::Pawn && from.file@
            != to.file@ ==> capture_of(board, from, to) == Some(PieceKind::Pawn),
        board.pieces[to@] is None && ((board.pieces[from@]->0).1 != PieceKind::Pawn || from.file@
            == to.file@) ==> capture_of(board, from, to) is None,
        board.pieces[to@] is Some ==> capture_of(board, from, to) == Some(
            (board.pieces[to@]->0).1,
        ),
{
}

/// The clock counts the half-moves since a pawn moved or a piece was taken: one
/// of those sets it back to nought, and every other move adds one.
pub proof fn law_the_clock_counts_quiet_moves(game: GameView, mv: Move)
    requires
        verdict(game, mv) is Ok,
        game.clock < u32::MAX,
    ensures
        ({
            let next = advanced(game, mv, verdict(game, mv)->Ok_0);
            let pawn = (game.board.pieces[mv.from@]->0).1 == PieceKind::Pawn;
            let taken = game.board.pieces[mv.to@] is Some;
            next.clock == (if pawn || taken {
                0
            } else {
                game.clock + 1
            })
        }),
{
}

/// A pawn, a rook or a queen on the board.
pub open spec fn has_mating_force(board: BoardView) -> bool {
    exists|i: int|
        0 <= i < 64 && (#[trigger] board.pieces[i]) is Some && ((board.pieces[i]->0).1
            == PieceKind::Pawn || (board.pieces[i]->0).1 == PieceKind::Rook || (board.pieces[i]->0).1
            == PieceKind::Queen)
}

/// Whether a knight or a bishop stands on a square.
pub open spec fn is_minor_at(board: BoardView, i: int) -> bool {
    0 <= i < 64 && board.pieces[i] is Some && ((board.pieces[i]->0).1 == PieceKind::Knight || (
    board.pieces[i]->0).1 == PieceKind::Bishop)
}

/// Knights and bishops on two different squares.
pub open spec fn has_two_minors(board: BoardView) -> bool {
    exists|i: int, j: int|
        i != j && #[trigger] is_minor_at(board, i) && #[trigger] is_minor_at(board, j)
}

/// How many of the first `n` squares hold a knight or a bishop.
spec fn minors(board: BoardView, n: int) -> nat
    decreases n,
{
    if n <= 0 {
        0
    } else {
        minors(board, n - 1) + (if is_minor_at(board, n - 1) {
            1nat
        } else {
            0nat
        })
    }
}

proof fn lemma_kind_count(board: BoardView, kind: PieceKind, n: int)
    requires
        0 <= n <= 64,
    ensures
        kind_count(board.pieces, kind, n) == 0 <==> forall|i: int|
            0 <= i < n ==> !((#[trigger] board.pieces[i]) is Some && (board.pieces[i]->0).1
                == kind),
    decreases n,
{
    if n > 0 {
        lemma_kind_count(board, kind, n - 1);
        assert(board.pieces[n - 1] == board.pieces[n - 1]);
    }
}

proof fn lemma_minors(board: BoardView, n: int)
    requires
        0 <= n <= 64,
    ensures
        minors(board, n) == kind_count(board.pieces, PieceKind::Knight, n) + kind_count(
            board.pieces,
            PieceKind::Bishop,
            n,
        ),
        minors(board, n) == 0 <==> forall|i: int| 0 <= i < n ==> !#[trigger] is_minor_at(board, i),
        minors(board, n) >= 2 <==> exists|i: int, j: int|
            0 <= i < j < n && #[trigger] is_minor_at(board, i) && #[trigger] is_minor_at(board, j),
    decreases n,
{
    if n > 0 {
        lemma_minors(board, n - 1);
        if is_minor_at(board, n - 1) {
            if minors(board, n - 1) >= 1 {
                let i = choose|i: int| 0 <= i < n - 1 && #[trigger] is_minor_at(board, i);
                assert(is_minor_at(board, i) && is_minor_at(board, n - 1));
            }
        }
        if minors(board, n - 1) >= 2 {
            let (i, j) = choose|i: int, j: int|
                0 <= i < j < n - 1 && #[trigger] is_minor_at(board, i) && #[trigger] is_minor_at(
                    board,
                    j,
                );
            assert(is_minor_at(board, i) && is_minor_at(board, j));
        }
        if exists|i: int, j: int|
            0 <= i < j < n && #[trigger] is_minor_at(board, i) && #[trigger] is_minor_at(board, j) {
            let (i, j) = choose|i: int, j: int|
                0 <= i < j < n && #[trigger] is_minor_at(board, i) && #[trigger] is_minor_at(
                    board,
                    j,
                );
            if j < n - 1 {
                assert(is_minor_at(board, i) && is_minor_at(board, j));
            } else {
                assert(is_minor_at(board, i));
            }
        }
    }
}

/// How often a position has stood: at this many places of the history.
pub open spec fn stood_at(history: Seq<BoardView>, board: BoardView) -> Set<int> {
    Set::new(|k: int| 0 <= k < history.len() && history[k] == board)
}

proof fn lemma_stood_at(history: Seq<BoardView>, board: BoardView)
    ensures
        stood_at(history, board).finite(),
        stood_at(history, board).len() == occurrences(history, board),
    decreases history.len(),
{
    let places = stood_at(history, board);
    if history.len() == 0 {
        assert(places =~= Set::<int>::empty());
    } else {
        let last = history.len() - 1;
        lemma_stood_at(history.drop_last(), board);
        let before = stood_at(history.drop_last(), board);
        if history.last() == board {
            assert(places =~= before.insert(last));
            assert(!before.contains(last));
        } else {
            assert(places =~= before);
        }
    }
}

/// How a game ends by itself, from what stands on the board and what has stood
/// on it. Without a legal move it is mate in check, won by the side that is not
/// to move, and stalemate otherwise. With one, it is drawn where nothing but
/// kings and at most one knight or bishop is left; else where the position
/// stands for the fifth time; else where seventy-five moves of each side went
/// by without a capture or a pawn move; and else it goes on.
pub proof fn law_how_a_move_ends_the_game(game: GameView, mv: Move)
    requires
        verdict(game, mv) is Ok,
    ensures
        ({
            let next = advanced(game, mv, verdict(game, mv)->Ok_0);
            let stuck = generated(next.board).len() == 0;
            let checked = check_count(next.board) > 0;
            let bare = !has_mating_force(next.board) && !has_two_minors(next.board);
            let fivefold = stood_at(next.history, next.board).len() >= 5;
            &&& stuck && checked <==> next.outcome is Some && next.outcome->0 is Checkmate
            &&& stuck && checked ==> next.outcome == Some(
                Outcome::Checkmate {
                    winner: if next.board.turn == Color::White {
                        Color::Black
                    } else {
                        Color::White
                    },
                },
            )
            &&& stuck && !checked <==> next.outcome == Some(Outcome::Stalemate)
            &&& !stuck && bare <==> next.outcome == Some(Outcome::InsufficientMaterial)
            &&& !stuck && !bare && fivefold <==> next.outcome == Some(Outcome::FivefoldRepetition)
            &&& !stuck && !bare && !fivefold && next.clock >= 150 <==> next.outcome == Some(
                Outcome::SeventyFiveMoveRule,
            )
            &&& !stuck && !bare && !fivefold && next.clock < 150 <==> next.outcome is None
        }),
{
    let next = advanced(game, mv, verdict(game, mv)->Ok_0);
    lemma_material(next.board);
    lemma_stood_at(next.history, next.board);
}

proof fn lemma_material(board: BoardView)
    ensures
        has_mating_force(board) <==> !(kind_count(board.pieces, PieceKind::Pawn, 64) == 0
            && kind_count(board.pieces, PieceKind::Rook, 64) == 0 && kind_count(
            board.pieces,
            PieceKind::Queen,
            64,
        ) == 0),
        has_two_minors(board) <==> kind_count(board.pieces, PieceKind::Knight, 64) + kind_count(
            board.pieces,
            PieceKind::Bishop,
            64,
        ) >= 2,
{
    lemma_kind_count(board, PieceKind::Pawn, 64);
    lemma_kind_count(board, PieceKind::Rook, 64);
    lemma_kind_count(board, PieceKind::Queen, 64);
    lemma_minors(board, 64);
    if has_two_minors(board) {
        let (i, j) = choose|i: int, j: int|
            i != j && #[trigger] is_minor_at(board, i) && #[trigger] is_minor_at(board, j);
        if j < i {
            assert(is_minor_at(board, j) && is_minor_at(board, i));
        } else {
            assert(is_minor_at(board, i) && is_minor_at(board, j));
        }
    }
}

/// A position with a pawn, a rook or a queen on any square is never ended for
/// want of material; one with kings and a lone knight or bishop always is,
/// where a move is left.
pub proof fn law_material_decides_by_what_stands(game: GameView, mv: Move, square: int)
    requires
        verdict(game, mv) is Ok,
        0 <= square < 64,
    ensures
        ({
            let next = advanced(game, mv, verdict(game, mv)->Ok_0);
            let at = |i: int, kind: PieceKind|
                next.board.pieces[i] is Some && (next.board.pieces[i]->0).1 == kind;
            &&& at(square, PieceKind::Pawn) || at(square, PieceKind::Rook) || at(
                square,
                PieceKind::Queen,
            ) ==> next.outcome != Some(Outcome::InsufficientMaterial)
            &&& (forall|i: int|
                0 <= i < 64 && i != square ==> (#[trigger] next.board.pieces[i]) is None || (
                next.board.pieces[i]->0).1 == PieceKind::King) && (next.board.pieces[square] is None
                || at(square, PieceKind::King) || at(square, PieceKind::Knight) || at(
                square,
                PieceKind::Bishop,
            )) && generated(next.board).len() > 0 ==> next.outcome == Some(
                Outcome::InsufficientMaterial,
            )
        }),
{
    law_how_a_move_ends_the_game(game, mv);
    let next = advanced(game, mv, verdict(game, mv)->Ok_0);
    assert(next.board.pieces[square] == next.board.pieces[square]);
    if (forall|i: int|
        0 <= i < 64 && i != square ==> (#[trigger] next.board.pieces[i]) is None || (
        next.board.pieces[i]->0).1 == PieceKind::King) {
        assert forall|i: int, j: int|
            i != j && #[trigger] is_minor_at(next.board, i) && #[trigger] is_minor_at(
                next.board,
                j,
            ) implies false by {
            assert(next.board.pieces[i] == next.board.pieces[i]);
            assert(next.board.pieces[j] == next.board.pieces[j]);
        }
    }
}

/// A draw can be claimed exactly while the game goes on and the position stands
/// for the third time at least, or else fifty moves of each side went by without
/// a capture or a pawn move; a claim ends the game by that draw and leaves the
/// position as it is.
pub proof fn law_claims_are_earned(game: GameView)
    ensures
        ({
            let threefold = stood_at(game.history, game.board).len() >= 3;
            &&& claimable(game) == Some(ClaimableDraw::ThreefoldRepetition) <==> game.outcome is None
                && threefold
            &&& claimable(game) == Some(ClaimableDraw::FiftyMoveRule) <==> game.outcome is None
                && !threefold && game.clock >= 100
            &&& claimable(game) is None <==> game.outcome is Some || (!threefold && game.clock < 100)
        }),
        forall|claim: ClaimableDraw|
            ({
                let over = #[trigger] claimed(game, claim);
                &&& over.outcome == Some(Outcome::Claimed(claim))
                &&& over.board == game.board
                &&& over.history == game.history
                &&& over.clock == game.clock
                &&& over.events.len() == game.events.len() + 1
                &&& over.events.last() == (GameEvent::ClaimDraw { reason: claim })
                &&& over.events.drop_last() == game.events
            }),
{
    lemma_stood_at(game.history, game.board);
    assert forall|claim: ClaimableDraw|
        ({
            let over = #[trigger] claimed(game, claim);
            over.events.drop_last() == game.events
        }) by {
        assert(claimed(game, claim).events.drop_last() =~= game.events);
    }
}

/// A set-up position is over exactly where its side to move has no legal move,
/// starts a history of its own, and keeps the clock it was given.
pub proof fn law_set_up_positions(board: BoardView, clock: u32)
    ensures
        ({
            let game = set_up(board, clock);
            let stuck = generated(board).len() == 0;
            &&& game.board == board
            &&& game.clock == clock
            &&& game.history.len() == 1
            &&& game.history[0] == board
            &&& game.events.len() == 0
            &&& !playable(board) ==> game.outcome is None
            &&& playable(board) && !stuck ==> game.outcome is None
            &&& playable(board) && stuck && check_count(board) == 0 ==> game.outcome == Some(
                Outcome::Stalemate,
            )
            &&& playable(board) && stuck && check_count(board) > 0 ==> game.outcome == Some(
                Outcome::Checkmate {
                    winner: if board.turn == Color::White {
                        Color::Black
                    } else {
                        Color::White
                    },
                },
            )
        }),
{
}

/// Replay takes one event at a time: a history with one event more leads where
/// that event leads from where the rest leads, a recorded move being played and
/// a recorded claim being made, and a history that leads nowhere leads nowhere
/// however it goes on.
pub proof fn law_replay_goes_event_by_event(events: Seq<GameEvent>, event: GameEvent)
    ensures
        replayed(Seq::empty()) == Ok::<GameView, Seq<char>>(start_game()),
        replayed(events) is Err ==> replayed(events.push(event)) == replayed(events),
        replayed(events) is Ok ==> {
            let game = replayed(events)->Ok_0;
            let next = replayed(events.push(event));
            match event {
                GameEvent::Move { from, to, promotion } => {
                    let mv = Move { from, to, promotion };
                    &&& next is Ok <==> verdict(game, mv) is Ok
                    &&& next is Ok ==> next->Ok_0 == advanced(game, mv, verdict(game, mv)->Ok_0)
                    &&& next is Err ==> next->Err_0 == verdict(game, mv)->Err_0.message_text()
                },
                GameEvent::ClaimDraw { reason } => {
                    &&& next is Ok <==> claimable(game) == Some(reason)
                    &&& next is Ok ==> next->Ok_0 == claimed(game, reason)
                    &&& game.outcome is Some ==> next == Err::<GameView, Seq<char>>(
                        ClaimError::GameOver.message_text(),
                    )
                    &&& game.outcome is None && claimable(game) is None ==> next == Err::<
                        GameView,
                        Seq<char>,
                    >(ClaimError::NothingToClaim.message_text())
                    &&& game.outcome is None && claimable(game) is Some && claimable(game)->0
                        != reason ==> next == Err::<GameView, Seq<char>>(
                        claim_mismatch(reason, claimable(game)->0),
                    )
                },
            }
        },
{
    assert(events.push(event).drop_last() =~= events);
}

/// The record of a move names the move as it was asked for, the piece that stood
/// where it came from, what stood where it went, and whether it gives check.
pub proof fn law_a_record_tells_what_happened(before: BoardView, mv: Move, after: BoardView)
    requires
        before.pieces[mv.from@] is Some,
    ensures
        record_of(before, mv, after).mv == mv,
        before.pieces[mv.from@] == Some(
            ((before.pieces[mv.from@]->0).0, record_of(before, mv, after).piece),
        ),
        before.pieces[mv.to@] is Some ==> record_of(before, mv, after).captured == Some(
            (before.pieces[mv.to@]->0).1,
        ),
        before.pieces[mv.to@] is None && (before.pieces[mv.from@]->0).1 == PieceKind::Pawn
            && mv.from.file@ != mv.to.file@ ==> record_of(before, mv, after).captured == Some(
            PieceKind::Pawn,
        ),
        before.pieces[mv.to@] is None && ((before.pieces[mv.from@]->0).1 != PieceKind::Pawn
            || mv.from.file@ == mv.to.file@) ==> record_of(before, mv, after).captured is None,
        record_of(before, mv, after).is_check <==> check_count(after) > 0,
{
}

/// The two sides oppose each other.
pub proof fn law_sides_oppose_each_other(side: Color)
    ensures
        side.other() != side,
        side.other().other() == side,
{
}

/// A square's name is the letter of its file and the number of its rank, and
/// every such pair of a letter and a number names a square.
pub proof fn law_names_are_letters_and_numbers(square: Square, text: Seq<char>)
    requires
        square.wf(),
    ensures
        square_name(square@).len() == 2,
        square_name(square@)[0] as int == 'a' as int + square.file@,
        square_name(square@)[1] as int == '1' as int + square.rank@,
        is_square_name(text) <==> text.len() == 2 && 'a' <= text[0] && text[0] <= 'h' && '1'
            <= text[1] && text[1] <= '8',
{
    assert((square.rank@ * 8 + square.file@) / 8 == square.rank@);
    assert((square.rank@ * 8 + square.file@) % 8 == square.file@);
}

/// The squares that hold a piece of a side.
pub open spec fn squares_of(board: BoardView, side: Color, n: int) -> Set<int> {
    Set::new(
        |i: int| 0 <= i < n && board.pieces[i] is Some && (board.pieces[i]->0).0 == side,
    )
}

proof fn lemma_squares_of(board: BoardView, side: Color, n: int)
    requires
        0 <= n <= 64,
    ensures
        squares_of(board, side, n).finite(),
        squares_of(board, side, n).len() == army(board.pieces, side, n),
    decreases n,
{
    let squares = squares_of(board, side, n);
    if n == 0 {
        assert(squares =~= Set::<int>::empty());
    } else {
        lemma_squares_of(board, side, n - 1);
        let before = squares_of(board, side, n - 1);
        if board.pieces[n - 1] is Some && (board.pieces[n - 1]->0).0 == side {
            assert(squares =~= before.insert(n - 1));
        } else {
            assert(squares =~= before);
        }
    }
}

/// Every position with at most sixteen pieces a side and no pawn to be taken en
/// passant can be played on.
pub proof fn law_ordinary_positions_are_playable(board: BoardView)
    requires
        board.wf(),
        board.en_passant is None,
        squares_of(board, Color::White, 64).len() <= 16,
        squares_of(board, Color::Black, 64).len() <= 16,
    ensures
        playable(board),
{
    lemma_squares_of(board, Color::White, 64);
    lemma_squares_of(board, Color::Black, 64);
}

/// A pawn that can be taken en passant leaves a position playable where the
/// square it passed over is empty and neither a knight nor another pawn gives
/// check.
pub proof fn law_en_passant_positions_are_playable(board: BoardView, pawn: u8)
    requires
        board.wf(),
        board.en_passant == Some(pawn),
        squares_of(board, Color::White, 64).len() <= 16,
        squares_of(board, Color::Black, 64).len() <= 16,
        board.turn == Color::White ==> pawn < 56 && board.pieces[pawn + 8] is None,
        board.turn == Color::Black ==> pawn >= 8 && board.pieces[pawn - 8] is None,
        forall|i: int|
            0 <= i < 64 && i != pawn && (#[trigger] board.pieces[i]) is Some && (
            board.pieces[i]->0).0 != board.turn ==> (board.pieces[i]->0).1 != PieceKind::Knight && (
            board.pieces[i]->0).1 != PieceKind::Pawn,
    ensures
        playable(board),
{
    lemma_squares_of(board, Color::White, 64);
    lemma_squares_of(board, Color::Black, 64);
}

/// How many ranks of a placement field are finished before its `n`th character.
pub open spec fn ranks_before(text: Seq<char>, n: int) -> int
    decreases n,
{
    if n <= 0 {
        0
    } else {
        ranks_before(text, n - 1) + (if text[n - 1] == '/' {
            1int
        } else {
            0int
        })
    }
}

/// How many files of its rank are filled before the `n`th character.
pub open spec fn files_before(text: Seq<char>, n: int) -> int
    decreases n,
{
    if n <= 0 {
        0
    } else if text[n - 1] == '/' {
        0
    } else {
        files_before(text, n - 1) + (if '1' <= text[n - 1] && text[n - 1] <= '8' {
            text[n - 1] as int - '0' as int
        } else {
            1int
        })
    }
}

/// The first `n` characters are of at most eight ranks of at most eight files,
/// made of pieces and counts of empty squares.
pub open spec fn is_placement(text: Seq<char>, n: int) -> bool {
    forall|k: int|
        0 <= k < n ==> {
            let c = #[trigger] text[k];
            &&& c == '/' || ('1' <= c && c <= '8') || is_piece_letter(c)
            &&& ranks_before(text, k + 1) <= 7
            &&& files_before(text, k + 1) <= 8
        }
}

/// Notation whose first field fills at most eight ranks of at most eight files
/// places exactly the kings that it names: it places both exactly where both
/// letters occur in the field.
pub proof fn law_placements_place_what_they_name(text: Seq<char>, n: int)
    requires
        0 <= n <= text.len(),
        n < text.len() ==> text[n] == ' ',
        forall|k: int| 0 <= k < n ==> #[trigger] text[k] != ' ',
        is_placement(text, n),
    ensures
        places_kings(text) <==> (exists|k: int| 0 <= k < n && #[trigger] text[k] == 'K') && (exists|
            k: int,
        |
            0 <= k < n && #[trigger] text[k] == 'k'),
{
    lemma_field_ends(text, 0, n);
    lemma_placed_letters(text, n, 'K');
    lemma_placed_letters(text, n, 'k');
}

proof fn lemma_field_ends(text: Seq<char>, from: int, n: int)
    requires
        0 <= from <= n <= text.len(),
        n < text.len() ==> text[n] == ' ',
        forall|k: int| 0 <= k < n ==> #[trigger] text[k] != ' ',
    ensures
        field_end(text, from) == n,
    decreases n - from,
{
    if from < n {
        assert(text[from] != ' ');
        lemma_field_ends(text, from + 1, n);
    }
}

/// Where a placement has come to after its `n`th character: the squares still
/// to be filled are empty.
proof fn lemma_placed(text: Seq<char>, n: int)
    requires
        0 <= n <= text.len(),
        is_placement(text, n),
    ensures
        placed(text, n) is Some,
        0 <= 7 - ranks_before(text, n) <= 7,
        0 <= files_before(text, n) <= 8,
        (placed(text, n)->0).rank == 7 - ranks_before(text, n),
        (placed(text, n)->0).file == files_before(text, n) % 8,
        (placed(text, n)->0).letters.len() == 64,
        forall|i: int|
            0 <= i < 64 && (i < 8 * (7 - ranks_before(text, n)) || 8 * (7 - ranks_before(text, n))
                + files_before(text, n) <= i < 8 * (8 - ranks_before(text, n))) ==> #[trigger] (
            placed(text, n)->0).letters[i] == ' ',
    decreases n,
{
    if n > 0 {
        lemma_placement_before(text, n);
        lemma_placed(text, n - 1);
        lemma_ranks_grow(text, n);
    }
}

proof fn lemma_placement_before(text: Seq<char>, n: int)
    requires
        0 < n <= text.len(),
        is_placement(text, n),
    ensures
        is_placement(text, n - 1),
        text[n - 1] == '/' || ('1' <= text[n - 1] && text[n - 1] <= '8') || is_piece_letter(
            text[n - 1],
        ),
        ranks_before(text, n) <= 7,
        files_before(text, n) <= 8,
{
    let c = text[n - 1];
    assert forall|k: int| 0 <= k < n - 1 implies {
        let c = #[trigger] text[k];
        &&& c == '/' || ('1' <= c && c <= '8') || is_piece_letter(c)
        &&& ranks_before(text, k + 1) <= 7
        &&& files_before(text, k + 1) <= 8
    } by {
        assert(text[k] == text[k]);
    }
}

/// Nothing is written over, so a piece is on the board exactly where its letter
/// has come up.
proof fn lemma_placed_letters(text: Seq<char>, n: int, c: char)
    requires
        0 <= n <= text.len(),
        is_placement(text, n),
        is_piece_letter(c),
    ensures
        placed(text, n) is Some,
        (placed(text, n)->0).letters.contains(c) <==> exists|k: int|
            0 <= k < n && #[trigger] text[k] == c,
    decreases n,
{
    lemma_placed(text, n);
    let at = placed(text, n)->0;
    if n == 0 {
        if at.letters.contains(c) {
            let i = choose|i: int| 0 <= i < at.letters.len() && at.letters[i] == c;
        }
    } else {
        lemma_placement_before(text, n);
        lemma_placed(text, n - 1);
        lemma_placed_letters(text, n - 1, c);
        let before = placed(text, n - 1)->0;
        let d = text[n - 1];
        if is_piece_letter(d) {
            let place = before.rank * 8 + before.file;
            lemma_ranks_grow(text, n - 1);
            assert(before.letters[place] == ' ');
            assert(at.letters[place] == d);
            if before.letters.contains(c) {
                let i = choose|i: int| 0 <= i < before.letters.len() && before.letters[i] == c;
                assert(at.letters[i] == c);
            }
            if at.letters.contains(c) && d != c {
                let i = choose|i: int| 0 <= i < at.letters.len() && at.letters[i] == c;
                assert(before.letters[i] == c);
            }
        }
        if exists|k: int| 0 <= k < n && #[trigger] text[k] == c {
            let k = choose|k: int| 0 <= k < n && #[trigger] text[k] == c;
            assert(k < n - 1 || d == c);
        }
    }
}

proof fn lemma_ranks_grow(text: Seq<char>, n: int)
    ensures
        ranks_before(text, n) >= 0,
    decreases n,
{
    if n > 0 {
        lemma_ranks_grow(text, n - 1);
    }
}

/// What a refused move is told.
pub proof fn law_refused_moves_are_put_in_words(error: MoveError)
    ensures
        error is GameOver ==> error.message_text() == "the game is over"@,
        error is EmptySquare ==> error.message_text() == "there is no piece on that square"@,
        error is WrongColor ==> error.message_text()
            == "that piece belongs to the side not to move"@,
        error is Illegal ==> error.message_text() == "that is not a legal move"@,
        error is PromotionRequired ==> error.message_text() == "a promotion piece is required"@,
        error is PromotionNotAllowed ==> error.message_text()
            == "that move does not promote a pawn"@,
{
}

/// What a refused claim is told.
pub proof fn law_refused_claims_are_put_in_words(error: ClaimError)
    ensures
        error is GameOver ==> error.message_text() == "the game is over"@,
        error is NothingToClaim ==> error.message_text() == "no claimable draw is available"@,
{
}

/// The game starts with the rooks, knights and bishops of a side from the edges
/// in, the queen and the king between them and the pawns in front; the sides face
/// each other across four empty ranks, White moves first, and both may castle on
/// either wing.
pub proof fn law_the_sides_start_face_to_face(file: int)
    requires
        0 <= file < 8,
    ensures
        ({
            let start = start_view();
            let back = start.pieces[file]->0;
            &&& start.pieces.len() == 64
            &&& start.pieces[file] is Some && back.0 == Color::White
            &&& start.pieces[56 + file] == Some((Color::Black, back.1))
            &&& start.pieces[8 + file] == Some((Color::White, PieceKind::Pawn))
            &&& start.pieces[48 + file] == Some((Color::Black, PieceKind::Pawn))
            &&& start.pieces[16 + file] is None && start.pieces[24 + file] is None
                && start.pieces[32 + file] is None && start.pieces[40 + file] is None
            &&& file == 0 || file == 7 <==> back.1 == PieceKind::Rook
            &&& file == 1 || file == 6 <==> back.1 == PieceKind::Knight
            &&& file == 2 || file == 5 <==> back.1 == PieceKind::Bishop
            &&& file == 3 <==> back.1 == PieceKind::Queen
            &&& file == 4 <==> back.1 == PieceKind::King
            &&& start.turn == Color::White
            &&& start.white_rights == 3 && start.black_rights == 3
            &&& start.en_passant is None
        }),
{
}

/// A side goes on where it has a move; without one it is mated in check and
/// stalemated out of it.
pub proof fn law_a_side_without_a_move_is_stuck(board: BoardView, mv: Candidate)
    ensures
        generated(board).contains(mv) ==> status_of(board) == Status::Ongoing,
        generated(board).len() == 0 && check_count(board) > 0 ==> status_of(board)
            == Status::Checkmate,
        generated(board).len() == 0 && check_count(board) == 0 ==> status_of(board)
            == Status::Stalemate,
        status_of(board) == Status::Ongoing ==> generated(board).len() > 0,
{
}

/// A recorded claim of the wrong draw is told both: the one that was recorded and
/// the one there was.
pub proof fn law_a_wrong_claim_is_told_both(recorded: ClaimableDraw, there: ClaimableDraw)
    ensures
        ({
            let first = if recorded is FiftyMoveRule {
                "FiftyMoveRule"@
            } else {
                "ThreefoldRepetition"@
            };
            let second = if there is FiftyMoveRule {
                "FiftyMoveRule"@
            } else {
                "ThreefoldRepetition"@
            };
            claim_mismatch(recorded, there) == "recorded claim "@ + first
                + " does not match the draw actually available ("@ + second + ")"@
        }),
{
}

} // verus!
