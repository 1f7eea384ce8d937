//! Game state: legality through the `chess` crate, and the draw classification
//! it does not do: insufficient material, threefold repetition, the fifty-move
//! rule, and their automatic fivefold and seventy-five-move cousins.

use vstd::prelude::*;
use vstd::string::*;

use crate::chess_rules::board::{
    army, board_view, candidate_shape, check_count, checkers, default_board, en_passant,
    en_passant_sound, entries, fen_view, follows, generated, has_kings, is_promotion, kind_count,
    kind_index, legal_moves, make_move, moved, offers_every_promotion, parse_board, pawns,
    piece_count, piece_on, places_kings, playable, start_view, status, status_of, steps_on_king,
    white_on, white_to_move, BoardView, Candidate, Status,
};
use crate::chess_rules::error::{ClaimError, MoveError};
use crate::chess_rules::repetition::{repetition_key, RepetitionKey};
use crate::chess_rules::types::{Color, Move, PieceKind, Square};
use crate::text::push_text;

verus! {

/// Half-moves since the last capture or pawn move before which the fifty-move
/// rule cannot yet be claimed.
pub const FIFTY_MOVE_CLAIM: u32 = 100;

/// Half-moves without a capture or pawn move after which the game is drawn
/// whether or not anyone claims it.
pub const SEVENTY_FIVE_MOVE_AUTOMATIC: u32 = 150;

/// Occurrences of one position before a draw is claimable.
pub const THREEFOLD_CLAIM: usize = 3;

/// Occurrences of one position after which the game is drawn whether or not
/// anyone claims it.
pub const FIVEFOLD_AUTOMATIC: usize = 5;

/// A draw either side may claim. Claiming is a decision a player makes, not
/// something that ends the game on its own.
#[derive(Debug, Clone, Copy, PartialEq, Eq, Hash, Structural)]
pub enum ClaimableDraw {
    /// The current position has occurred three times.
    ThreefoldRepetition,
    /// Fifty moves have passed with no capture or pawn move.
    FiftyMoveRule,
}

impl ClaimableDraw {
    /// The draw's name as text.
    pub open spec fn name_text(self) -> Seq<char> {
        match self {
            ClaimableDraw::ThreefoldRepetition => "ThreefoldRepetition"@,
            ClaimableDraw::FiftyMoveRule => "FiftyMoveRule"@,
        }
    }

    /// The draw's name as text.
    pub fn name(self) -> (name: &'static str)
        ensures
            name@ == self.name_text(),
    {
        match self {
            ClaimableDraw::ThreefoldRepetition => "ThreefoldRepetition",
            ClaimableDraw::FiftyMoveRule => "FiftyMoveRule",
        }
    }
}

/// How a finished game ended.
#[derive(Debug, Clone, Copy, PartialEq, Eq, Hash, Structural)]
#[non_exhaustive]
pub enum Outcome {
    /// The side to move has no legal move and is in check.
    Checkmate {
        /// The side that delivered it.
        winner: Color,
    },
    /// The side to move has no legal move and is not in check.
    Stalemate,
    /// Neither side has enough material to deliver checkmate by any legal
    /// sequence of moves. Scoped to the unambiguous cases only: bare kings, or
    /// one minor piece on both sides combined.
    InsufficientMaterial,
    /// The same position has recurred five times. Automatic.
    FivefoldRepetition,
    /// Seventy-five moves have passed with no capture or pawn move. Automatic.
    SeventyFiveMoveRule,
    /// A player claimed a draw that was available.
    Claimed(ClaimableDraw),
}

impl Outcome {
    /// Whether this outcome is a draw rather than a decisive result.
    pub fn is_draw(self) -> (draw: bool)
        ensures
            draw == !(self is Checkmate),
    {
        !matches!(self, Outcome::Checkmate { .. })
    }
}

/// What [`Game::apply`] did, for a caller that wants to react without
/// re-deriving it from the position that resulted.
#[derive(Debug, Clone, Copy, PartialEq, Eq, Hash, Structural)]
pub struct MoveRecord {
    /// The move as applied.
    pub mv: Move,
    /// The piece that moved.
    pub piece: PieceKind,
    /// The piece captured, if any, including a pawn taken en passant.
    pub captured: Option<PieceKind>,
    /// Whether the side now to move is in check.
    pub is_check: bool,
}

/// One entry in a game's history, in the shape the save format persists.
#[derive(Debug, Clone, Copy, PartialEq, Eq, Structural)]
pub enum GameEvent {
    /// A move was made.
    Move {
        /// Where from.
        from: Square,
        /// Where to.
        to: Square,
        /// What a promoting pawn became.
        promotion: Option<PieceKind>,
    },
    /// A claimable draw was claimed.
    ClaimDraw {
        /// Which one.
        reason: ClaimableDraw,
    },
}

impl GameEvent {
    /// The squares of a move are on the board.
    pub open spec fn wf(self) -> bool {
        self matches GameEvent::Move { from, to, promotion } ==> from.wf() && to.wf()
    }

    /// The entry a move leaves.
    pub open spec fn of(mv: Move) -> GameEvent {
        GameEvent::Move { from: mv.from, to: mv.to, promotion: mv.promotion }
    }
}

/// What a game consists of.
pub struct GameView {
    /// The position on the board.
    pub board: BoardView,
    /// How the game ended, or `None` while it continues.
    pub outcome: Option<Outcome>,
    /// Half-moves since the last capture or pawn move.
    pub clock: u32,
    /// Every position that has stood on the board, the current one last.
    pub history: Seq<BoardView>,
    /// Every accepted move and claim, in the order it happened.
    pub events: Seq<GameEvent>,
}

/// How often `view` occurs in `history`.
pub open spec fn occurrences(history: Seq<BoardView>, view: BoardView) -> nat
    decreases history.len(),
{
    if history.len() == 0 {
        0
    } else {
        occurrences(history.drop_last(), view) + if history.last() == view {
            1nat
        } else {
            0nat
        }
    }
}

/// What a player asks of the generator, as it would have generated it.
pub open spec fn wanted(mv: Move) -> Candidate {
    (
        mv.from@ as u8,
        mv.to@ as u8,
        match mv.promotion {
            Some(kind) => Some(kind_index(kind)),
            None => None,
        },
    )
}

/// Some legal move goes from `from` to `to`.
pub open spec fn connects(moves: Seq<Candidate>, from: int, to: int) -> bool {
    exists|k: int| 0 <= k < moves.len() && (#[trigger] moves[k]).0 == from && moves[k].1 == to
}

/// Some legal move goes from `from` to `to` and promotes.
pub open spec fn promotes(moves: Seq<Candidate>, from: int, to: int) -> bool {
    exists|k: int|
        0 <= k < moves.len() && (#[trigger] moves[k]).0 == from && moves[k].1 == to && moves[k].2 is Some
}

/// Which of the legal moves a player means, or why none.
pub open spec fn chosen(moves: Seq<Candidate>, mv: Move) -> Result<Candidate, MoveError> {
    if !connects(moves, mv.from@, mv.to@) {
        Err(MoveError::Illegal)
    } else if promotes(moves, mv.from@, mv.to@) {
        if mv.promotion is None {
            Err(MoveError::PromotionRequired)
        } else if moves.contains(wanted(mv)) {
            Ok(wanted(mv))
        } else {
            Err(MoveError::Illegal)
        }
    } else if mv.promotion is Some {
        Err(MoveError::PromotionNotAllowed)
    } else {
        Ok(wanted(mv))
    }
}

/// Which legal move of a game a player means, or why the move is refused.
pub open spec fn verdict(game: GameView, mv: Move) -> Result<Candidate, MoveError> {
    if game.outcome is Some {
        Err(MoveError::GameOver)
    } else if game.board.pieces[mv.from@] is None {
        Err(MoveError::EmptySquare)
    } else if (game.board.pieces[mv.from@]->0).0 != game.board.turn {
        Err(MoveError::WrongColor)
    } else {
        chosen(generated(game.board), mv)
    }
}

/// Whether a move takes a pawn of the side to move to its far rank as some
/// legal move of a game that goes on does, whatever it becomes.
pub open spec fn may_promote(game: GameView, mv: Move) -> bool {
    &&& game.outcome is None
    &&& is_promotion(game.board, mv.from@, mv.to@)
    &&& connects(generated(game.board), mv.from@, mv.to@)
}

/// Whether a pawn may become this piece.
pub open spec fn is_choice(kind: PieceKind) -> bool {
    kind != PieceKind::Pawn && kind != PieceKind::King
}

/// What a legal move captures. A pawn only ever moves diagonally to capture, so
/// a diagonal pawn move onto an empty square is a capture en passant.
pub open spec fn capture_of(board: BoardView, from: Square, to: Square) -> Option<PieceKind> {
    if board.pieces[to@] is Some {
        Some((board.pieces[to@]->0).1)
    } else if (board.pieces[from@]->0).1 == PieceKind::Pawn && from.file@ != to.file@ {
        Some(PieceKind::Pawn)
    } else {
        None
    }
}

/// What is recorded of a move from one position to the next.
pub open spec fn record_of(before: BoardView, mv: Move, after: BoardView) -> MoveRecord {
    MoveRecord {
        mv,
        piece: (before.pieces[mv.from@]->0).1,
        captured: capture_of(before, mv.from, mv.to),
        is_check: check_count(after) > 0,
    }
}

/// Whether neither side can deliver mate, in the cases no arbiter would
/// disagree about.
pub open spec fn too_little_material(board: BoardView) -> bool {
    &&& kind_count(board.pieces, PieceKind::Pawn, 64) == 0
    &&& kind_count(board.pieces, PieceKind::Rook, 64) == 0
    &&& kind_count(board.pieces, PieceKind::Queen, 64) == 0
    &&& kind_count(board.pieces, PieceKind::Knight, 64) + kind_count(
        board.pieces,
        PieceKind::Bishop,
        64,
    ) <= 1
}

/// How a game ends by itself once a position is reached, if it does.
pub open spec fn automatic(
    status: Status,
    turn: Color,
    bare: bool,
    times: int,
    clock: int,
) -> Option<Outcome> {
    match status {
        Status::Checkmate => Some(Outcome::Checkmate { winner: turn.other() }),
        Status::Stalemate => Some(Outcome::Stalemate),
        Status::Ongoing => if bare {
            Some(Outcome::InsufficientMaterial)
        } else if times >= FIVEFOLD_AUTOMATIC {
            Some(Outcome::FivefoldRepetition)
        } else if clock >= SEVENTY_FIVE_MOVE_AUTOMATIC {
            Some(Outcome::SeventyFiveMoveRule)
        } else {
            None
        },
    }
}

/// The game after a legal move.
pub open spec fn advanced(game: GameView, mv: Move, candidate: Candidate) -> GameView {
    let board = moved(game.board, candidate);
    let history = game.history.push(board);
    let clock = if (game.board.pieces[mv.from@]->0).1 == PieceKind::Pawn || capture_of(
        game.board,
        mv.from,
        mv.to,
    ) is Some {
        0u32
    } else {
        (game.clock + 1) as u32
    };
    GameView {
        board,
        outcome: automatic(
            status_of(board),
            board.turn,
            too_little_material(board),
            occurrences(history, board) as int,
            clock as int,
        ),
        clock,
        history,
        events: game.events.push(GameEvent::of(mv)),
    }
}

/// The draw that can be claimed, if any.
pub open spec fn claimable(game: GameView) -> Option<ClaimableDraw> {
    if game.outcome is Some {
        None
    } else if occurrences(game.history, game.board) >= THREEFOLD_CLAIM {
        Some(ClaimableDraw::ThreefoldRepetition)
    } else if game.clock >= FIFTY_MOVE_CLAIM {
        Some(ClaimableDraw::FiftyMoveRule)
    } else {
        None
    }
}

/// The game after a claim.
pub open spec fn claimed(game: GameView, claim: ClaimableDraw) -> GameView {
    GameView {
        outcome: Some(Outcome::Claimed(claim)),
        events: game.events.push(GameEvent::ClaimDraw { reason: claim }),
        ..game
    }
}

/// Where the first `n` legal moves from `from` lead, each place once.
pub open spec fn destinations(moves: Seq<Candidate>, from: int, n: int) -> Seq<int>
    decreases n,
{
    if n <= 0 {
        Seq::empty()
    } else {
        let before = destinations(moves, from, n - 1);
        let to = moves[n - 1].1 as int;
        if moves[n - 1].0 == from && !before.contains(to) {
            before.push(to)
        } else {
            before
        }
    }
}

/// A game in a position that nothing has happened in yet.
pub open spec fn fresh_game(board: BoardView, clock: u32) -> GameView {
    GameView { board, outcome: None, clock, history: seq![board], events: Seq::empty() }
}

/// A game in a position that was set up: one in which the side to move is
/// already mated or stalemated is over. The draws that a game comes to by
/// itself wait for the first move, and of a position that moves cannot be
/// generated in nothing is known.
pub open spec fn set_up(board: BoardView, clock: u32) -> GameView {
    GameView {
        outcome: if playable(board) {
            match status_of(board) {
                Status::Checkmate => Some(Outcome::Checkmate { winner: board.turn.other() }),
                Status::Stalemate => Some(Outcome::Stalemate),
                Status::Ongoing => None,
            }
        } else {
            None
        },
        ..fresh_game(board, clock)
    }
}

/// A game before its first move.
pub open spec fn start_game() -> GameView {
    fresh_game(start_view(), 0)
}

/// What is said of a recorded claim that was not the one available.
pub open spec fn claim_mismatch(reason: ClaimableDraw, claimed: ClaimableDraw) -> Seq<char> {
    "recorded claim "@ + reason.name_text() + " does not match the draw actually available ("@
        + claimed.name_text() + ")"@
}

/// The game after one recorded event, or why the event cannot follow.
pub open spec fn after_event(game: GameView, event: GameEvent) -> Result<GameView, Seq<char>> {
    match event {
        GameEvent::Move { from, to, promotion } => {
            let mv = Move { from, to, promotion };
            match verdict(game, mv) {
                Err(error) => Err(error.message_text()),
                Ok(candidate) => Ok(advanced(game, mv, candidate)),
            }
        },
        GameEvent::ClaimDraw { reason } => if game.outcome is Some {
            Err(ClaimError::GameOver.message_text())
        } else {
            match claimable(game) {
                None => Err(ClaimError::NothingToClaim.message_text()),
                Some(claim) => if claim == reason {
                    Ok(claimed(game, claim))
                } else {
                    Err(claim_mismatch(reason, claim))
                },
            }
        },
    }
}

/// The game a recorded history leads to, or why it leads to none: the events
/// happen in order, and the first that cannot is the one that is reported.
pub open spec fn replayed(events: Seq<GameEvent>) -> Result<GameView, Seq<char>>
    decreases events.len(),
{
    if events.len() == 0 {
        Ok(start_game())
    } else {
        match replayed(events.drop_last()) {
            Err(reason) => Err(reason),
            Ok(game) => after_event(game, events.last()),
        }
    }
}

/// A side by whether it is White.
fn to_color(white: bool) -> (color: Color)
    ensures
        color == (if white {
            Color::White
        } else {
            Color::Black
        }),
{
    if white {
        Color::White
    } else {
        Color::Black
    }
}

/// A piece's place in pawn, knight, bishop, rook, queen, king.
fn to_lib_piece(kind: PieceKind) -> (index: u8)
    ensures
        index == kind_index(kind),
        index < 6,
{
    match kind {
        PieceKind::Pawn => 0,
        PieceKind::Knight => 1,
        PieceKind::Bishop => 2,
        PieceKind::Rook => 3,
        PieceKind::Queen => 4,
        PieceKind::King => 5,
    }
}

/// The piece at a place in pawn, knight, bishop, rook, queen, king.
fn from_lib_piece(index: u8) -> (kind: PieceKind)
    requires
        index < 6,
    ensures
        kind_index(kind) == index,
{
    match index {
        0 => PieceKind::Pawn,
        1 => PieceKind::Knight,
        2 => PieceKind::Bishop,
        3 => PieceKind::Rook,
        4 => PieceKind::Queen,
        _ => PieceKind::King,
    }
}

/// Neither side has enough material to deliver checkmate by any legal sequence
/// of moves, restricted to the cases no arbiter would disagree about.
fn insufficient_material(board: &chess::Board) -> (bare: bool)
    ensures
        bare == too_little_material(board_view(*board)),
{
    let pawns: u32 = piece_count(board, to_lib_piece(PieceKind::Pawn));
    let rooks: u32 = piece_count(board, to_lib_piece(PieceKind::Rook));
    let queens: u32 = piece_count(board, to_lib_piece(PieceKind::Queen));
    let knights: u32 = piece_count(board, to_lib_piece(PieceKind::Knight));
    let bishops: u32 = piece_count(board, to_lib_piece(PieceKind::Bishop));
    pawns == 0 && rooks == 0 && queens == 0 && knights + bishops <= 1
}

/// Picks the legal move a player means out of those generated.
///
/// A promotion is required exactly when the move is a pawn reaching the back
/// rank, and refused otherwise.
pub fn choose_move(moves: &Vec<Candidate>, mv: Move) -> (choice: Result<Candidate, MoveError>)
    requires
        mv.wf(),
    ensures
        choice == chosen(moves@, mv),
        choice is Ok ==> moves@.contains(choice->Ok_0),
{
    let from: u8 = mv.from.index();
    let to: u8 = mv.to.index();
    let promotion: Option<u8> = match mv.promotion {
        Some(kind) => Some(to_lib_piece(kind)),
        None => None,
    };
    let mut found = false;
    let mut needs_promotion = false;
    let mut wanted_found = false;
    for index in 0..moves.len()
        invariant
            from == mv.from@,
            to == mv.to@,
            (from, to, promotion) == wanted(mv),
            found <==> exists|k: int|
                0 <= k < index && (#[trigger] moves@[k]).0 == from && moves@[k].1 == to,
            needs_promotion <==> exists|k: int|
                0 <= k < index && (#[trigger] moves@[k]).0 == from && moves@[k].1 == to
                    && moves@[k].2 is Some,
            wanted_found <==> exists|k: int| 0 <= k < index && #[trigger] moves@[k] == wanted(mv),
    {
        let candidate = moves[index];
        if candidate.0 == from && candidate.1 == to {
            assert(moves@[index as int].0 == from && moves@[index as int].1 == to);
            found = true;
            if candidate.2.is_some() {
                needs_promotion = true;
            }
            if candidate.2 == promotion {
                assert(moves@[index as int] == wanted(mv));
                wanted_found = true;
            }
        }
    }
    proof {
        assert(wanted_found <==> moves@.contains(wanted(mv)));
        assert(found <==> connects(moves@, mv.from@, mv.to@));
        assert(needs_promotion <==> promotes(moves@, mv.from@, mv.to@));
        if found && !needs_promotion && mv.promotion is None {
            let k = choose|k: int|
                0 <= k < moves@.len() && (#[trigger] moves@[k]).0 == from && moves@[k].1 == to;
            assert(moves@[k].2 is None);
            assert(moves@[k] == wanted(mv));
        }
    }
    if !found {
        return Err(MoveError::Illegal);
    }
    match (needs_promotion, mv.promotion) {
        (true, None) => Err(MoveError::PromotionRequired),
        (true, Some(_)) => {
            if wanted_found {
                Ok((from, to, promotion))
            } else {
                Err(MoveError::Illegal)
            }
        },
        (false, Some(_)) => Err(MoveError::PromotionNotAllowed),
        (false, None) => Ok((from, to, promotion)),
    }
}

/// Where the legal moves from a square lead, each place once, in the order
/// they were generated.
pub fn destinations_from(moves: &Vec<Candidate>, from: Square) -> (squares: Vec<Square>)
    requires
        from.wf(),
        forall|k: int| 0 <= k < moves@.len() ==> (#[trigger] moves@[k]).1 < 64,
    ensures
        square_indices(squares@) == destinations(moves@, from@, moves@.len() as int),
        forall|k: int| 0 <= k < squares@.len() ==> (#[trigger] squares@[k]).wf(),
{
    let mut squares: Vec<Square> = Vec::new();
    for index in 0..moves.len()
        invariant
            from.wf(),
            forall|k: int| 0 <= k < moves@.len() ==> (#[trigger] moves@[k]).1 < 64,
            square_indices(squares@) == destinations(moves@, from@, index as int),
            forall|k: int| 0 <= k < squares@.len() ==> (#[trigger] squares@[k]).wf(),
    {
        let candidate = moves[index];
        let ghost before = square_indices(squares@);
        if candidate.0 == from.index() {
            let to = Square::at(candidate.1);
            if !lists(&squares, to) {
                squares.push(to);
                assert(square_indices(squares@) =~= before.push(to@));
            }
        }
    }
    squares
}

/// Where squares stand.
pub open spec fn square_indices(squares: Seq<Square>) -> Seq<int> {
    squares.map_values(|square: Square| square@)
}

/// Whether `square` is among `squares`.
pub(crate) fn lists(squares: &Vec<Square>, square: Square) -> (listed: bool)
    requires
        square.wf(),
        forall|k: int| 0 <= k < squares@.len() ==> (#[trigger] squares@[k]).wf(),
    ensures
        listed == square_indices(squares@).contains(square@),
{
    for index in 0..squares.len()
        invariant
            square.wf(),
            forall|k: int| 0 <= k < squares@.len() ==> (#[trigger] squares@[k]).wf(),
            forall|k: int| 0 <= k < index ==> #[trigger] square_indices(squares@)[k] != square@,
    {
        assert(square_indices(squares@)[index as int] == squares@[index as int]@);
        if squares[index] == square {
            assert(square_indices(squares@).contains(square@));
            return true;
        }
    }
    assert forall|k: int| 0 <= k < squares@.len() implies square_indices(squares@)[k] != square@ by {
        assert(square_indices(squares@)[k] == squares@[k]@);
    }
    false
}

/// How a game ends by itself in a position that has now occurred `times`
/// times, with `clock` half-moves since the last capture or pawn move.
pub fn automatic_outcome(
    status: Status,
    turn: Color,
    bare: bool,
    times: usize,
    clock: u32,
) -> (outcome: Option<Outcome>)
    ensures
        outcome == automatic(status, turn, bare, times as int, clock as int),
{
    match status {
        Status::Checkmate => Some(Outcome::Checkmate { winner: turn.opponent() }),
        Status::Stalemate => Some(Outcome::Stalemate),
        Status::Ongoing => if bare {
            Some(Outcome::InsufficientMaterial)
        } else if times >= FIVEFOLD_AUTOMATIC {
            Some(Outcome::FivefoldRepetition)
        } else if clock >= SEVENTY_FIVE_MOVE_AUTOMATIC {
            Some(Outcome::SeventyFiveMoveRule)
        } else {
            None
        },
    }
}

/// One local two-player game: the position, whether it is over, and the
/// history needed to resume it and to judge repetition and the fifty-move
/// rule.
#[derive(Debug)]
pub struct Game {
    pub(crate) board: chess::Board,
    pub(crate) outcome: Option<Outcome>,
    pub(crate) halfmove_clock: u32,
    pub(crate) positions: Vec<RepetitionKey>,
    pub(crate) events: Vec<GameEvent>,
}

impl Game {
    /// What the game consists of.
    pub open(crate) spec fn view(&self) -> GameView {
        GameView {
            board: board_view(self.board),
            outcome: self.outcome,
            clock: self.halfmove_clock,
            history: self.positions@.map_values(|key: RepetitionKey| key@),
            events: self.events@,
        }
    }

    /// The board is a position, every recorded position and event is one, and
    /// a game that goes on has room on its clock.
    pub open(crate) spec fn wf(&self) -> bool {
        &&& board_view(self.board).wf()
        &&& forall|k: int| 0 <= k < self.positions@.len() ==> (#[trigger] self.positions@[k]).wf()
        &&& forall|k: int| 0 <= k < self.events@.len() ==> (#[trigger] self.events@[k]).wf()
        &&& self.outcome is None ==> self.halfmove_clock < u32::MAX
    }

    /// The game is the one its own events lead to from the starting position.
    pub open spec fn from_start(&self) -> bool {
        replayed(self@.events) == Ok::<GameView, Seq<char>>(self@)
    }

    /// The starting position, White to move.
    pub fn new() -> (game: Self)
        ensures
            game.wf(),
            game@ == start_game(),
            game.from_start(),
            playable(game@.board),
    {
        let board = default_board();
        proof {
            lemma_start_playable();
        }
        let game = Self::from_board(board, 0);
        assert(game@.events =~= Seq::<GameEvent>::empty());
        game
    }

    /// Builds a position from Forsyth-Edwards notation, for setting up a
    /// specific board rather than playing to it one legal move at a time.
    ///
    /// `None` for anything the `chess` crate's own parser and sanity check
    /// refuse, including a position with no king or with the side not to move
    /// already in check. The fifty-move clock and repetition history are not
    /// part of the notation and start fresh. A position in which the side to
    /// move is mated or stalemated is a finished game.
    pub fn from_fen(fen: &str) -> (game: Option<Self>)
        ensures
            game is Some <==> places_kings(fen@) && fen_view(fen@) is Some,
            game is Some ==> game->0.wf() && game->0@ == set_up(fen_view(fen@)->0, 0),
    {
        Self::from_position(fen, 0)
    }

    /// [`Self::from_fen`], with the fifty-move clock at `halfmove_clock`.
    pub fn from_position(fen: &str, halfmove_clock: u32) -> (game: Option<Self>)
        requires
            halfmove_clock < u32::MAX,
        ensures
            game is Some <==> places_kings(fen@) && fen_view(fen@) is Some,
            game is Some ==> game->0.wf() && game->0@ == set_up(
                fen_view(fen@)->0,
                halfmove_clock,
            ),
    {
        if !has_kings(fen) {
            return None;
        }
        let mut game = match parse_board(fen) {
            Some(board) => Self::from_board(board, halfmove_clock),
            None => {
                return None;
            },
        };
        if game.is_playable() {
            game.outcome = match status(&game.board) {
                Status::Checkmate => Some(
                    Outcome::Checkmate { winner: game.side_to_move().opponent() },
                ),
                Status::Stalemate => Some(Outcome::Stalemate),
                Status::Ongoing => None,
            };
        }
        Some(game)
    }

    fn from_board(board: chess::Board, halfmove_clock: u32) -> (game: Self)
        requires
            board_view(board).wf(),
            halfmove_clock < u32::MAX,
        ensures
            game.wf(),
            game@ == fresh_game(board_view(board), halfmove_clock),
    {
        let mut positions: Vec<RepetitionKey> = Vec::new();
        positions.push(repetition_key(&board));
        let game = Self {
            board,
            outcome: None,
            halfmove_clock,
            positions,
            events: Vec::new(),
        };
        assert(game@.history =~= seq![board_view(board)]);
        assert(game@.events =~= Seq::<GameEvent>::empty());
        game
    }

    /// Who moves next.
    pub fn side_to_move(&self) -> (side: Color)
        ensures
            side == self@.board.turn,
    {
        to_color(white_to_move(&self.board))
    }

    /// How many moves and claims have been recorded so far.
    ///
    /// Useful for telling whether a tap actually changed the game, as distinct
    /// from changing only what a screen is showing.
    pub fn ply(&self) -> (count: usize)
        ensures
            count == self@.events.len(),
    {
        self.events.len()
    }

    /// The piece on `square`, if any.
    pub fn piece_at(&self, square: Square) -> (piece: Option<(Color, PieceKind)>)
        requires
            square.wf(),
        ensures
            piece == self@.board.pieces[square@],
    {
        let index: u8 = square.index();
        match (piece_on(&self.board, index), white_on(&self.board, index)) {
            (Some(kind), Some(white)) => Some((to_color(white), from_lib_piece(kind))),
            _ => None,
        }
    }

    /// Whether the side to move is in check. True in a checkmate position as
    /// well as an ordinary one; checking [`Self::outcome`] distinguishes them.
    pub fn is_in_check(&self) -> (check: bool)
        ensures
            check == (check_count(self@.board) > 0),
    {
        checkers(&self.board) > 0
    }

    /// How the game ended, or `None` while it continues.
    pub fn outcome(&self) -> (outcome: Option<Outcome>)
        ensures
            outcome == self@.outcome,
    {
        self.outcome
    }

    /// Whether moves can be generated in this position. Every game that began
    /// from the starting position is playable; one set up from notation need
    /// not be.
    pub fn is_playable(&self) -> (fits: bool)
        requires
            self.wf(),
        ensures
            fits == playable(self@.board),
    {
        entry_count(&self.board, Color::White) <= 18 && entry_count(&self.board, Color::Black) <= 18
            && en_passant_is_sound(&self.board)
    }

    /// How often the position on the board has occurred.
    fn times(&self, key: &RepetitionKey) -> (count: usize)
        requires
            self.wf(),
            key.wf(),
        ensures
            count == occurrences(self@.history, key@),
            count <= self@.history.len(),
    {
        let mut count: usize = 0;
        let ghost history = self@.history;
        for index in 0..self.positions.len()
            invariant
                self.wf(),
                key.wf(),
                history == self@.history,
                history.len() == self.positions@.len(),
                count <= index,
                count == occurrences(history.take(index as int), key@),
        {
            proof {
                let next = history.take(index + 1);
                assert(next.drop_last() =~= history.take(index as int));
                assert(next.last() == self.positions@[index as int]@);
            }
            if self.positions[index].same(key) {
                count = count + 1;
            }
        }
        assert(history.take(history.len() as int) =~= history);
        count
    }

    /// A draw available to claim, or `None` if there is not one right now.
    ///
    /// `None` once the game already has an outcome: there is nothing left for
    /// a claim to do.
    pub fn claimable_draw(&self) -> (claim: Option<ClaimableDraw>)
        requires
            self.wf(),
        ensures
            claim == claimable(self@),
    {
        if self.outcome.is_some() {
            return None;
        }
        let key = repetition_key(&self.board);
        if self.times(&key) >= THREEFOLD_CLAIM {
            Some(ClaimableDraw::ThreefoldRepetition)
        } else if self.halfmove_clock >= FIFTY_MOVE_CLAIM {
            Some(ClaimableDraw::FiftyMoveRule)
        } else {
            None
        }
    }

    /// Every square a piece on `from` may legally move to. Empty once the game
    /// has an outcome, or if `from` holds no piece, or is not the moving
    /// side's.
    pub fn legal_destinations(&self, from: Square) -> (squares: Vec<Square>)
        requires
            self.wf(),
            playable(self@.board),
            from.wf(),
        ensures
            square_indices(squares@) == (if self@.outcome is Some {
                Seq::empty()
            } else {
                destinations(
                    generated(self@.board),
                    from@,
                    generated(self@.board).len() as int,
                )
            }),
            forall|k: int| 0 <= k < squares@.len() ==> (#[trigger] squares@[k]).wf(),
            squares@.len() > 0 ==> self@.board.pieces[from@] is Some && (
            self@.board.pieces[from@]->0).0 == self@.board.turn,
    {
        if self.outcome.is_some() {
            let squares: Vec<Square> = Vec::new();
            assert(square_indices(squares@) =~= Seq::<int>::empty());
            return squares;
        }
        let moves = legal_moves(&self.board);
        let squares = destinations_from(&moves, from);
        proof {
            let places = square_indices(squares@);
            assert(places.len() == squares@.len());
            if squares@.len() > 0 {
                lemma_destinations(moves@, from@, moves@.len() as int);
                assert(places.contains(places[0]));
                let k = choose|k: int|
                    0 <= k < moves@.len() && (#[trigger] moves@[k]).0 == from@ && moves@[k].1
                        == places[0];
                assert(candidate_shape(self@.board, moves@[k]));
            }
        }
        squares
    }

    /// Applies a move, or refuses it.
    ///
    /// `mv.promotion` is required exactly when `mv` is a pawn reaching the
    /// back rank, and refused otherwise; the pawn may become any of the four
    /// pieces. A refused move changes nothing.
    pub fn apply(&mut self, mv: Move) -> (result: Result<MoveRecord, MoveError>)
        requires
            old(self).wf(),
            playable(old(self)@.board),
            mv.wf(),
        ensures
            final(self).wf(),
            playable(final(self)@.board),
            result is Ok <==> verdict(old(self)@, mv) is Ok,
            result is Err ==> verdict(old(self)@, mv) == Err::<Candidate, MoveError>(result->Err_0)
                && final(self)@ == old(self)@,
            result is Ok ==> {
                let before = old(self)@.board;
                let candidate = verdict(old(self)@, mv)->Ok_0;
                &&& final(self)@ == advanced(old(self)@, mv, candidate)
                &&& follows(before, candidate, final(self)@.board)
                &&& mv.promotion is Some <==> is_promotion(before, mv.from@, mv.to@)
                &&& result->Ok_0 == (MoveRecord {
                    mv,
                    piece: (before.pieces[mv.from@]->0).1,
                    captured: capture_of(before, mv.from, mv.to),
                    is_check: check_count(final(self)@.board) > 0,
                })
                &&& result->Ok_0 == record_of(before, mv, final(self)@.board)
            },
            result == Err::<MoveRecord, MoveError>(MoveError::PromotionRequired) ==> mv.promotion is None
                && is_promotion(old(self)@.board, mv.from@, mv.to@),
            result == Err::<MoveRecord, MoveError>(MoveError::PromotionNotAllowed)
                ==> mv.promotion is Some && !is_promotion(old(self)@.board, mv.from@, mv.to@),
            may_promote(old(self)@, mv) && mv.promotion is Some && is_choice(mv.promotion->0)
                ==> result is Ok,
            may_promote(old(self)@, mv) && mv.promotion is None ==> result == Err::<
                MoveRecord,
                MoveError,
            >(MoveError::PromotionRequired),
            old(self).from_start() ==> final(self).from_start(),
    {
        if self.outcome.is_some() {
            return Err(MoveError::GameOver);
        }
        let (moving_color, moving_piece) = match self.piece_at(mv.from) {
            Some(piece) => piece,
            None => {
                return Err(MoveError::EmptySquare);
            },
        };
        if moving_color != self.side_to_move() {
            return Err(MoveError::WrongColor);
        }
        let ghost before = self@;
        let moves = legal_moves(&self.board);
        let choice = choose_move(&moves, mv);
        proof {
            lemma_promotion_shape(before.board, moves@, mv);
        }
        let candidate = match choice {
            Ok(candidate) => candidate,
            Err(error) => {
                return Err(error);
            },
        };

        // A pawn only ever moves diagonally to capture, so a diagonal pawn
        // move onto an empty square can only be an en passant capture.
        let captured = match self.piece_at(mv.to) {
            Some((_, piece)) => Some(piece),
            None => {
                if moving_piece == PieceKind::Pawn && mv.from.file != mv.to.file {
                    Some(PieceKind::Pawn)
                } else {
                    None
                }
            },
        };
        let resets_clock = moving_piece == PieceKind::Pawn || captured.is_some();

        let board = make_move(&self.board, candidate);
        let key = repetition_key(&board);
        let clock: u32 = if resets_clock {
            0
        } else {
            self.halfmove_clock + 1
        };
        self.board = board;
        self.positions.push(key);
        assert(self@.history =~= before.history.push(board_view(board)));
        let last: usize = self.positions.len() - 1;
        let times: usize = self.times(&self.positions[last]);
        self.halfmove_clock = clock;
        self.outcome = self.derive_automatic_outcome(times);
        self.events.push(
            GameEvent::Move { from: mv.from, to: mv.to, promotion: mv.promotion },
        );
        proof {
            assert(self@.events =~= before.events.push(GameEvent::of(mv)));
            assert(self@ == advanced(before, mv, candidate));
            if old(self).from_start() {
                lemma_replay_step(before, GameEvent::of(mv), self@);
            }
        }

        Ok(MoveRecord { mv, piece: moving_piece, captured, is_check: self.is_in_check() })
    }

    /// Claims the available draw, ending the game.
    pub fn claim_draw(&mut self) -> (result: Result<ClaimableDraw, ClaimError>)
        requires
            old(self).wf(),
        ensures
            final(self).wf(),
            result == (if old(self)@.outcome is Some {
                Err::<ClaimableDraw, ClaimError>(ClaimError::GameOver)
            } else {
                match claimable(old(self)@) {
                    Some(claim) => Ok::<ClaimableDraw, ClaimError>(claim),
                    None => Err::<ClaimableDraw, ClaimError>(ClaimError::NothingToClaim),
                }
            }),
            final(self)@ == (match result {
                Ok(claim) => claimed(old(self)@, claim),
                Err(_) => old(self)@,
            }),
            old(self).from_start() ==> final(self).from_start(),
    {
        if self.outcome.is_some() {
            return Err(ClaimError::GameOver);
        }
        let ghost before = self@;
        match self.claimable_draw() {
            None => Err(ClaimError::NothingToClaim),
            Some(claim) => {
                self.outcome = Some(Outcome::Claimed(claim));
                self.events.push(GameEvent::ClaimDraw { reason: claim });
                proof {
                    if old(self).from_start() {
                        lemma_replay_step(before, GameEvent::ClaimDraw { reason: claim }, self@);
                    }
                }
                Ok(claim)
            },
        }
    }

    /// How the position on the board ends the game by itself, if it does.
    fn derive_automatic_outcome(&self, times: usize) -> (outcome: Option<Outcome>)
        requires
            playable(self@.board),
        ensures
            outcome == automatic(
                status_of(self@.board),
                self@.board.turn,
                too_little_material(self@.board),
                times as int,
                self@.clock as int,
            ),
    {
        automatic_outcome(
            status(&self.board),
            self.side_to_move(),
            insufficient_material(&self.board),
            times,
            self.halfmove_clock,
        )
    }

    /// The recorded history, in the order it happened.
    pub fn events(&self) -> (events: &Vec<GameEvent>)
        requires
            self.wf(),
        ensures
            events@ == self@.events,
            forall|k: int| 0 <= k < events@.len() ==> (#[trigger] events@[k]).wf(),
    {
        &self.events
    }

    /// Rebuilds a game by replaying a recorded history from the start.
    ///
    /// The error names what went wrong during replay: an out-of-turn move, an
    /// illegal one, or a claim recorded when nothing was claimable.
    pub fn from_events(events: &Vec<GameEvent>) -> (game: Result<Self, String>)
        requires
            forall|k: int| 0 <= k < events@.len() ==> (#[trigger] events@[k]).wf(),
        ensures
            game is Ok <==> replayed(events@) is Ok,
            game is Ok ==> game->Ok_0.wf() && playable(game->Ok_0@.board) && replayed(events@)
                == Ok::<GameView, Seq<char>>(game->Ok_0@) && game->Ok_0.from_start()
                && game->Ok_0@.events == events@,
            game is Err ==> replayed(events@) == Err::<GameView, Seq<char>>(game->Err_0@),
    {
        let mut game = Self::new();
        assert(events@.take(0) =~= Seq::<GameEvent>::empty());
        for index in 0..events.len()
            invariant
                forall|k: int| 0 <= k < events@.len() ==> (#[trigger] events@[k]).wf(),
                game.wf(),
                playable(game@.board),
                game.from_start(),
                game@.events == events@.take(index as int),
        {
            let ghost before = game@;
            proof {
                let now = events@.take(index + 1);
                assert(now.drop_last() =~= events@.take(index as int));
                assert(now.last() == events@[index as int]);
                assert(events@[index as int].wf());
                lemma_replay_extends(events@, index as int + 1);
            }
            match events[index] {
                GameEvent::Move { from, to, promotion } => {
                    match game.apply(Move { from, to, promotion }) {
                        Ok(_) => {},
                        Err(error) => {
                            return Err(error.message());
                        },
                    }
                },
                GameEvent::ClaimDraw { reason } => {
                    match game.claim_draw() {
                        Ok(claim) => {
                            if claim != reason {
                                let mut text = "recorded claim ".to_owned();
                                push_text(&mut text, reason.name());
                                push_text(
                                    &mut text,
                                    " does not match the draw actually available (",
                                );
                                push_text(&mut text, claim.name());
                                push_text(&mut text, ")");
                                return Err(text);
                            }
                        },
                        Err(error) => {
                            return Err(error.message());
                        },
                    }
                },
            }
            assert(game@.events =~= events@.take(index + 1));
        }
        assert(events@.take(events@.len() as int) =~= events@);
        Ok(game)
    }
}

impl Clone for Game {
    fn clone(&self) -> (copy: Self)
        ensures
            copy@ == self@,
            copy.wf() == self.wf(),
    {
        let mut positions: Vec<RepetitionKey> = Vec::new();
        for index in 0..self.positions.len()
            invariant
                positions@.len() == index,
                forall|k: int|
                    0 <= k < index ==> (#[trigger] positions@[k])@ == self.positions@[k]@
                        && positions@[k].wf() == self.positions@[k].wf(),
        {
            positions.push(self.positions[index].clone());
        }
        let copy = Self {
            board: self.board,
            outcome: self.outcome,
            halfmove_clock: self.halfmove_clock,
            positions,
            events: self.events.clone(),
        };
        assert(copy@.history =~= self@.history);
        assert(copy.events@ =~= self.events@);
        proof {
            if copy.wf() {
                assert forall|k: int| 0 <= k < self.positions@.len() implies (
                #[trigger] self.positions@[k]).wf() by {
                    assert(copy.positions@[k].wf());
                }
            }
        }
        copy
    }
}

impl Default for Game {
    fn default() -> (game: Self)
        ensures
            game.wf(),
            game@ == start_game(),
    {
        Self::new()
    }
}

/// How many pieces a side has.
fn army_size(board: &chess::Board, side: Color) -> (count: u8)
    requires
        board_view(*board).wf(),
    ensures
        count == army(board_view(*board).pieces, side, 64),
        count <= 64,
{
    let mut count: u8 = 0;
    for index in 0..64u8
        invariant
            board_view(*board).wf(),
            count <= index,
            count == army(board_view(*board).pieces, side, index as int),
    {
        if let Some(white) = white_on(board, index) {
            if to_color(white) == side {
                count = count + 1;
            }
        }
    }
    count
}

/// How many pawns a side has.
fn pawn_count(board: &chess::Board, side: Color) -> (count: u8)
    requires
        board_view(*board).wf(),
    ensures
        count == pawns(board_view(*board).pieces, side, 64),
        count <= 64,
{
    let mut count: u8 = 0;
    for index in 0..64u8
        invariant
            board_view(*board).wf(),
            count <= index,
            count == pawns(board_view(*board).pieces, side, index as int),
    {
        if let (Some(kind), Some(white)) = (piece_on(board, index), white_on(board, index)) {
            if kind == 0 && to_color(white) == side {
                count = count + 1;
            }
        }
    }
    count
}

/// The most entries a side's moves can take in the generator's list.
fn entry_count(board: &chess::Board, side: Color) -> (count: u8)
    requires
        board_view(*board).wf(),
    ensures
        count == entries(board_view(*board).pieces, side),
{
    let army: u8 = army_size(board, side);
    let pawns: u8 = pawn_count(board, side);
    army + (if pawns < 2 {
        pawns
    } else {
        2
    })
}

/// Whether en passant is offered only where it can have arisen.
fn en_passant_is_sound(board: &chess::Board) -> (sound: bool)
    requires
        board_view(*board).wf(),
    ensures
        sound == en_passant_sound(board_view(*board)),
{
    let ghost view = board_view(*board);
    let pawn: u8 = match en_passant(board) {
        Some(pawn) => pawn,
        None => {
            return true;
        },
    };
    let white = white_to_move(board);
    if (white && pawn >= 56) || (!white && pawn < 8) {
        return false;
    }
    let passed: u8 = if white {
        pawn + 8
    } else {
        pawn - 8
    };
    if piece_on(board, passed).is_some() {
        return false;
    }
    for king in 0..64u8
        invariant
            view == board_view(*board),
            view.wf(),
            view.en_passant == Some(pawn),
            white == (view.turn == Color::White),
            forall|from: int, at: int|
                0 <= from < 64 && 0 <= at < king && #[trigger] steps_on_king(view, from, at) ==> from
                    == pawn,
    {
        for from in 0..64u8
            invariant
                view == board_view(*board),
                view.wf(),
                view.en_passant == Some(pawn),
                white == (view.turn == Color::White),
                king < 64,
                forall|f: int| 0 <= f < from && #[trigger] steps_on_king(view, f, king as int) ==> f == pawn,
        {
            if from != pawn && gives_step_check(board, from, king) {
                assert(steps_on_king(view, from as int, king as int));
                return false;
            }
        }
    }
    true
}

/// Whether the piece on `from` is a knight or a pawn of the other side that
/// attacks the king of the side to move on `king`.
fn gives_step_check(board: &chess::Board, from: u8, king: u8) -> (check: bool)
    requires
        board_view(*board).wf(),
        from < 64,
        king < 64,
    ensures
        check == steps_on_king(board_view(*board), from as int, king as int),
{
    let white = white_to_move(board);
    let files: i8 = (from % 8) as i8 - (king % 8) as i8;
    let ranks: i8 = (from / 8) as i8 - (king / 8) as i8;
    let is_king = match (piece_on(board, king), white_on(board, king)) {
        (Some(kind), Some(side)) => kind == 5 && side == white,
        _ => false,
    };
    if !is_king {
        return false;
    }
    match (piece_on(board, from), white_on(board, from)) {
        (Some(kind), Some(side)) => {
            if side == white {
                false
            } else if kind == 1 {
                ((files == 1 || files == -1) && (ranks == 2 || ranks == -2)) || ((files == 2
                    || files == -2) && (ranks == 1 || ranks == -1))
            } else if kind == 0 {
                (files == 1 || files == -1) && ranks == (if side {
                    -1
                } else {
                    1
                })
            } else {
                false
            }
        },
        _ => false,
    }
}

/// Every place a legal move from a square leads to is listed, and nothing else.
pub proof fn lemma_destinations(moves: Seq<Candidate>, from: int, n: int)
    requires
        0 <= n <= moves.len(),
    ensures
        forall|to: int| #[trigger]
            destinations(moves, from, n).contains(to) <==> exists|k: int|
                0 <= k < n && (#[trigger] moves[k]).0 == from && moves[k].1 == to,
        destinations(moves, from, n).no_duplicates(),
    decreases n,
{
    let listed = destinations(moves, from, n);
    if n > 0 {
        lemma_destinations(moves, from, n - 1);
        let before = destinations(moves, from, n - 1);
        let last = moves[n - 1].1 as int;
        assert forall|to: int| #[trigger] listed.contains(to) implies exists|k: int|
            0 <= k < n && (#[trigger] moves[k]).0 == from && moves[k].1 == to by {
            if before.contains(to) {
                let k = choose|k: int|
                    0 <= k < n - 1 && (#[trigger] moves[k]).0 == from && moves[k].1 == to;
                assert(moves[k].0 == from && moves[k].1 == to);
            } else {
                let k = choose|k: int| 0 <= k < listed.len() && listed[k] == to;
                if k < before.len() {
                    assert(before[k] == to);
                }
                assert(moves[n - 1].0 == from && moves[n - 1].1 == to);
            }
        }
        assert forall|to: int|
            (exists|k: int| 0 <= k < n && (#[trigger] moves[k]).0 == from && moves[k].1 == to) implies
            #[trigger] listed.contains(to) by {
            let k = choose|k: int|
                0 <= k < n && (#[trigger] moves[k]).0 == from && moves[k].1 == to;
            if k < n - 1 {
                assert(before.contains(to));
            }
            if before.contains(to) {
                let j = choose|j: int| 0 <= j < before.len() && before[j] == to;
                assert(listed[j] == to);
            } else {
                assert(listed[listed.len() - 1] == to);
            }
        }
    }
}

/// With the shape that generated moves have, a pair of squares promotes
/// exactly where it takes a pawn to its far rank.
proof fn lemma_promotion_shape(board: BoardView, moves: Seq<Candidate>, mv: Move)
    requires
        mv.wf(),
        forall|k: int| 0 <= k < moves.len() ==> candidate_shape(board, #[trigger] moves[k]),
        offers_every_promotion(moves),
    ensures
        connects(moves, mv.from@, mv.to@) && is_promotion(board, mv.from@, mv.to@)
            && mv.promotion is Some && is_choice(mv.promotion->0) ==> chosen(moves, mv) is Ok,
        connects(moves, mv.from@, mv.to@) ==> (promotes(moves, mv.from@, mv.to@) <==> is_promotion(
            board,
            mv.from@,
            mv.to@,
        )),
        chosen(moves, mv) is Ok ==> candidate_shape(board, chosen(moves, mv)->Ok_0),
{
    if connects(moves, mv.from@, mv.to@) {
        let k = choose|k: int|
            0 <= k < moves.len() && (#[trigger] moves[k]).0 == mv.from@ && moves[k].1 == mv.to@;
        assert(candidate_shape(board, moves[k]));
        if moves[k].2 is Some && mv.promotion is Some && is_choice(mv.promotion->0) {
            let piece = kind_index(mv.promotion->0);
            assert(moves.contains((moves[k].0, moves[k].1, Some(piece))));
            assert(wanted(mv) == (moves[k].0, moves[k].1, Some(piece)));
        }
        if promotes(moves, mv.from@, mv.to@) {
            let j = choose|j: int|
                0 <= j < moves.len() && (#[trigger] moves[j]).0 == mv.from@ && moves[j].1 == mv.to@
                    && moves[j].2 is Some;
            assert(candidate_shape(board, moves[j]));
        }
        if chosen(moves, mv) is Ok && promotes(moves, mv.from@, mv.to@) {
            let j = choose|j: int| 0 <= j < moves.len() && moves[j] == wanted(mv);
            assert(candidate_shape(board, moves[j]));
        }
    }
}

/// Playing one more event from where a history leads is leading one further.
proof fn lemma_replay_step(game: GameView, event: GameEvent, next: GameView)
    requires
        replayed(game.events) == Ok::<GameView, Seq<char>>(game),
        after_event(game, event) == Ok::<GameView, Seq<char>>(next),
        next.events == game.events.push(event),
    ensures
        replayed(next.events) == Ok::<GameView, Seq<char>>(next),
{
    assert(next.events.drop_last() =~= game.events);
    assert(next.events.last() == event);
}

/// A history that fails at its `n`th event fails as a whole, for that reason.
proof fn lemma_replay_extends(events: Seq<GameEvent>, n: int)
    requires
        0 <= n <= events.len(),
    ensures
        replayed(events.take(n)) is Err ==> replayed(events) == replayed(events.take(n)),
    decreases events.len() - n,
{
    if n < events.len() {
        let next = events.take(n + 1);
        assert(next.drop_last() =~= events.take(n));
        lemma_replay_extends(events, n + 1);
    } else {
        assert(events.take(n) =~= events);
    }
}

/// Moves can be generated in the starting position.
proof fn lemma_start_playable()
    ensures
        playable(start_view()),
{
    let pieces = start_view().pieces;
    assert(army(pieces, Color::White, 64) == 16 && army(pieces, Color::Black, 64) == 16) by {
        lemma_start_rank(0);
        lemma_start_rank(1);
        lemma_start_rank(2);
        lemma_start_rank(3);
        lemma_start_rank(4);
        lemma_start_rank(5);
        lemma_start_rank(6);
        lemma_start_rank(7);
    }
}

proof fn lemma_start_rank(rank: int)
    requires
        0 <= rank < 8,
    ensures
        army(start_view().pieces, Color::White, rank * 8 + 8) == army(
            start_view().pieces,
            Color::White,
            rank * 8,
        ) + (if rank < 2 {
            8int
        } else {
            0
        }),
        army(start_view().pieces, Color::Black, rank * 8 + 8) == army(
            start_view().pieces,
            Color::Black,
            rank * 8,
        ) + (if rank >= 6 {
            8int
        } else {
            0
        }),
{
    reveal_with_fuel(army, 9);
}

/// A finished game refuses every further move and claim.
pub proof fn law_finished_game_is_closed(game: GameView, mv: Move)
    requires
        game.outcome is Some,
    ensures
        verdict(game, mv) == Err::<Candidate, MoveError>(MoveError::GameOver),
        claimable(game) is None,
        forall|event: GameEvent| (#[trigger] after_event(game, event)) is Err,
{
}

/// The outcome tells a checkmate position from an ordinary check: a game that
/// was set up, or has just had a move, is won exactly where the side to move is
/// in check and has no legal move.
pub proof fn law_outcome_tells_mate_from_check(
    board: BoardView,
    clock: u32,
    game: GameView,
    mv: Move,
)
    ensures
        playable(board) ==> (set_up(board, clock).outcome is Some && set_up(
            board,
            clock,
        ).outcome->0 is Checkmate <==> check_count(board) > 0 && generated(board).len() == 0),
        verdict(game, mv) is Ok ==> {
            let next = advanced(game, mv, verdict(game, mv)->Ok_0);
            next.outcome is Some && next.outcome->0 is Checkmate <==> check_count(next.board) > 0
                && generated(next.board).len() == 0
        },
{
}

/// An accepted event is recorded, and counts for one ply.
pub proof fn law_accepted_events_are_counted(game: GameView, event: GameEvent)
    requires
        after_event(game, event) is Ok,
    ensures
        after_event(game, event)->Ok_0.events == game.events.push(event),
{
}

/// A replayed history records exactly itself.
pub proof fn law_replay_records_its_events(events: Seq<GameEvent>)
    requires
        replayed(events) is Ok,
    ensures
        replayed(events)->Ok_0.events == events,
    decreases events.len(),
{
    if events.len() > 0 {
        let before = events.drop_last();
        law_replay_records_its_events(before);
        law_accepted_events_are_counted(replayed(before)->Ok_0, events.last());
        assert(before.push(events.last()) =~= events);
    } else {
        assert(events =~= Seq::<GameEvent>::empty());
    }
}

/// A saved game loads back to the same game: replaying the events of a game
/// that began at the starting position gives that game, down to its clock, its
/// repetitions and its outcome.
pub proof fn law_saved_game_loads_back(game: Game, loaded: Game)
    requires
        game.from_start(),
        replayed(game@.events) == Ok::<GameView, Seq<char>>(loaded@),
    ensures
        loaded@ == game@,
{
}

/// The automatic draws come in time: a replayed game that still goes on is
/// below both of their limits.
pub proof fn law_ongoing_game_is_below_the_limits(events: Seq<GameEvent>)
    requires
        replayed(events) is Ok,
        replayed(events)->Ok_0.outcome is None,
    ensures
        occurrences(replayed(events)->Ok_0.history, replayed(events)->Ok_0.board)
            < FIVEFOLD_AUTOMATIC,
        replayed(events)->Ok_0.clock < SEVENTY_FIVE_MOVE_AUTOMATIC,
{
    if events.len() == 0 {
        reveal_with_fuel(occurrences, 2);
    }
}

/// A claim ends the game as a draw, and only where one is available.
pub proof fn law_claim_ends_the_game(game: GameView, reason: ClaimableDraw)
    requires
        after_event(game, GameEvent::ClaimDraw { reason }) is Ok,
    ensures
        claimable(game) == Some(reason),
        after_event(game, GameEvent::ClaimDraw { reason })->Ok_0.outcome == Some(
            Outcome::Claimed(reason),
        ),
        after_event(game, GameEvent::ClaimDraw { reason })->Ok_0.board == game.board,
{
}

} // verus!
