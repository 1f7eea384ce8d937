//! What a tap on the Chess screen does.
//!
//! Legality, check and the draw conditions are the rules' to decide. What is
//! here is presentation, and reading what a player means from where a tap
//! landed.

use vstd::prelude::*;
use vstd::string::*;

use crate::action::Action;
use crate::chess::board::Square;
use crate::chess::pieces::{piece_of, side_of, to_piece, to_side, Placement};
use crate::chess_rules::board::{check_count, generated, playable};
use crate::chess_rules::error::MoveError;
use crate::chess_rules::game::{
    advanced, claimable, claimed, connects, destinations, lemma_destinations, square_indices,
    start_game, verdict, ClaimableDraw, Game, GameView, Outcome,
};
use crate::chess_rules::types::{Color, Move, PieceKind};
use crate::text::{push_char, push_text};

verus! {

/// What the Chess screen is currently showing, on top of the game state.
///
/// Everything here is either presentation or a question the board alone cannot
/// answer: which piece a completed move becomes, and whether a new game is
/// really meant.
#[derive(Debug, Clone, Copy, PartialEq, Eq)]
pub struct ChessScreen {
    /// Whether Black is at the bottom.
    pub flipped: bool,
    /// The square holding the piece currently picked up.
    pub selected: Option<Square>,
    /// A move is legal except for which piece it promotes to; these are its
    /// `from` and `to` squares, waiting on one more tap.
    pub pending_promotion: Option<(Square, Square)>,
    /// Whether the new-game action was just tapped once and awaits a
    /// confirming second tap.
    pub new_game_armed: bool,
}

/// What of the screen, as it was drawn, a pointer landed on.
#[derive(Debug, Clone, Copy)]
pub struct ChessHits {
    /// Whether the pointer was lifted, which is what makes it a tap.
    pub tap: bool,
    /// Whether the promotion picker was drawn.
    pub picker: bool,
    /// The piece of the promotion picker that was hit.
    pub promotion: Option<PieceKind>,
    /// Whether the claim-draw action was hit.
    pub claim_draw: bool,
    /// Whether the home action was hit.
    pub home: bool,
    /// Whether the flip-board action was hit.
    pub flip_board: bool,
    /// Whether the new-game action was hit.
    pub new_game: bool,
    /// The square that was hit.
    pub square: Option<Square>,
}

/// What a tap leaves behind: the screen, the game, and what to ask for.
pub struct ChessStep {
    /// What the screen shows.
    pub screen: ChessScreen,
    /// The game.
    pub game: GameView,
    /// What to ask the platform for.
    pub action: Action,
}

/// The rules' square for a square on screen.
pub open(crate) spec fn rules_square(square: Square) -> crate::chess_rules::Square {
    crate::chess_rules::Square {
        file: crate::chess_rules::File(square.file.0),
        rank: crate::chess_rules::Rank(square.rank.0),
    }
}

/// The move between two squares on screen.
pub open spec fn rules_move(from: Square, to: Square, promotion: Option<PieceKind>) -> Move {
    Move { from: rules_square(from), to: rules_square(to), promotion }
}

/// The game after a move is tried: it happens, or nothing does.
pub open spec fn tried(game: GameView, mv: Move) -> GameView {
    match verdict(game, mv) {
        Ok(candidate) => advanced(game, mv, candidate),
        Err(_) => game,
    }
}

/// Whether the side to move has a piece on `square`.
pub open spec fn owns(game: GameView, square: Square) -> bool {
    let piece = game.board.pieces[square@];
    piece is Some && (piece->0).0 == game.board.turn
}

/// What is picked up where a tap on `square` is not a move.
pub open spec fn picked(game: GameView, square: Square) -> Option<Square> {
    if owns(game, square) {
        Some(square)
    } else {
        None
    }
}

/// What a tap on the board does.
pub open spec fn square_tapped(screen: ChessScreen, game: GameView, square: Square) -> ChessStep {
    match screen.selected {
        None => ChessStep {
            screen: ChessScreen { selected: picked(game, square), ..screen },
            game,
            action: Action::Redraw,
        },
        Some(from) => if from == square {
            ChessStep {
                screen: ChessScreen { selected: None, ..screen },
                game,
                action: Action::Redraw,
            }
        } else if !connects(generated(game.board), from@, square@) {
            ChessStep {
                screen: ChessScreen { selected: picked(game, square), ..screen },
                game,
                action: Action::Redraw,
            }
        } else {
            let mv = rules_move(from, square, None);
            let decision = verdict(game, mv);
            ChessStep {
                screen: if decision is Ok {
                    ChessScreen { selected: None, ..screen }
                } else if decision->Err_0 == MoveError::PromotionRequired {
                    ChessScreen { pending_promotion: Some((from, square)), ..screen }
                } else {
                    screen
                },
                game: tried(game, mv),
                action: Action::Redraw,
            }
        },
    }
}

/// What a pointer event does. An open promotion picker swallows every tap;
/// the footer answers next, then, while the game goes on, the board.
pub open spec fn pressed(screen: ChessScreen, game: GameView, hits: ChessHits) -> ChessStep {
    let calm = ChessScreen { new_game_armed: false, ..screen };
    if !hits.tap {
        ChessStep { screen, game, action: Action::Nothing }
    } else if hits.picker {
        match (hits.promotion, screen.pending_promotion) {
            (Some(piece), Some((from, to))) => ChessStep {
                screen: ChessScreen { pending_promotion: None, selected: None, ..screen },
                game: tried(game, rules_move(from, to, Some(piece))),
                action: Action::Redraw,
            },
            _ => ChessStep { screen, game, action: Action::Redraw },
        }
    } else if hits.claim_draw {
        ChessStep {
            screen,
            game: match claimable(game) {
                Some(claim) => claimed(game, claim),
                None => game,
            },
            action: Action::Redraw,
        }
    } else if hits.home {
        ChessStep { screen, game, action: Action::Home }
    } else if hits.flip_board {
        ChessStep {
            screen: ChessScreen { flipped: !screen.flipped, ..calm },
            game,
            action: Action::Redraw,
        }
    } else if hits.new_game && screen.new_game_armed {
        ChessStep {
            screen: ChessScreen { selected: None, ..calm },
            game: start_game(),
            action: Action::Redraw,
        }
    } else if hits.new_game {
        ChessStep {
            screen: ChessScreen { new_game_armed: true, ..screen },
            game,
            action: Action::Redraw,
        }
    } else if game.outcome is Some || hits.square is None {
        ChessStep { screen: calm, game, action: Action::Nothing }
    } else {
        square_tapped(calm, game, hits.square->0)
    }
}

impl ChessScreen {
    /// Every square the screen remembers is on the board.
    pub open spec fn wf(&self) -> bool {
        &&& self.selected is Some ==> self.selected->0.wf()
        &&& self.pending_promotion is Some ==> (self.pending_promotion->0).0.wf() && (
        self.pending_promotion->0).1.wf()
    }

    /// A fresh screen: White at the bottom, nothing selected.
    pub fn new() -> (screen: Self)
        ensures
            screen.wf(),
            screen == (ChessScreen {
                flipped: false,
                selected: None,
                pending_promotion: None,
                new_game_armed: false,
            }),
    {
        Self { flipped: false, selected: None, pending_promotion: None, new_game_armed: false }
    }

    /// Turns the board around.
    pub fn flip(&mut self)
        ensures
            *final(self) == (ChessScreen { flipped: !old(self).flipped, ..*old(self) }),
    {
        self.flipped = !self.flipped;
    }

    /// Handles a pointer event, mutating `game` when the tap completes a move
    /// or a claim, and says what the app should ask the platform for.
    pub fn press(&mut self, game: &mut Game, hits: ChessHits) -> (action: Action)
        requires
            old(self).wf(),
            old(game).wf(),
            playable(old(game)@.board),
            hits.square is Some ==> hits.square->0.wf(),
        ensures
            final(self).wf(),
            final(game).wf(),
            playable(final(game)@.board),
            (ChessStep { screen: *final(self), game: final(game)@, action }) == pressed(
                *old(self),
                old(game)@,
                hits,
            ),
            old(game).from_start() ==> final(game).from_start(),
    {
        if !hits.tap {
            return Action::Nothing;
        }
        if hits.picker {
            if let Some(piece) = hits.promotion {
                if let Some((from, to)) = self.pending_promotion {
                    self.pending_promotion = None;
                    let mv = Move::promoting(to_rules_square(from), to_rules_square(to), piece);
                    // Legality up to the promotion choice was already
                    // confirmed; only the piece was missing.
                    let _ = game.apply(mv);
                    self.selected = None;
                }
            }
            return Action::Redraw;
        }
        if hits.claim_draw {
            let _ = game.claim_draw();
            return Action::Redraw;
        }
        if hits.home {
            return Action::Home;
        }
        if hits.flip_board {
            self.flip();
            self.new_game_armed = false;
            return Action::Redraw;
        }
        if hits.new_game {
            if self.new_game_armed {
                *game = Game::new();
                self.new_game_armed = false;
                self.selected = None;
            } else {
                self.new_game_armed = true;
            }
            return Action::Redraw;
        }
        self.new_game_armed = false;

        if game.outcome().is_some() {
            // The game is over; only the footer controls above do anything.
            return Action::Nothing;
        }
        let square = match hits.square {
            Some(square) => square,
            None => {
                return Action::Nothing;
            },
        };
        match self.selected {
            Some(from) => {
                if from == square {
                    self.selected = None;
                    return Action::Redraw;
                }
                let rules_from = to_rules_square(from);
                let rules_to = to_rules_square(square);
                let legal = game.legal_destinations(rules_from);
                let reachable = lists_square(&legal, rules_to);
                proof {
                    let moves = generated(game@.board);
                    lemma_destinations(moves, from@, moves.len() as int);
                    assert(reachable <==> connects(moves, from@, square@));
                }
                if reachable {
                    match game.apply(Move::new(rules_from, rules_to)) {
                        Ok(_) => {
                            self.selected = None;
                        },
                        Err(error) => {
                            if error == MoveError::PromotionRequired {
                                self.pending_promotion = Some((from, square));
                            }
                        },
                    }
                } else {
                    self.selected = if owns_piece_at(game, square) {
                        Some(square)
                    } else {
                        None
                    };
                }
            },
            None => {
                self.selected = if owns_piece_at(game, square) {
                    Some(square)
                } else {
                    None
                };
            },
        }
        Action::Redraw
    }
}

impl Default for ChessScreen {
    fn default() -> (screen: Self)
        ensures
            screen == (ChessScreen {
                flipped: false,
                selected: None,
                pending_promotion: None,
                new_game_armed: false,
            }),
    {
        Self::new()
    }
}

/// Converts a screen square into the one the rules understand.
///
/// Both share the same `0..8` convention, so this is a relabelling.
pub fn to_rules_square(square: Square) -> (rules: crate::chess_rules::Square)
    requires
        square.wf(),
    ensures
        rules == rules_square(square),
        rules.wf(),
        rules@ == square@,
{
    crate::chess_rules::Square {
        file: crate::chess_rules::File(square.file.0),
        rank: crate::chess_rules::Rank(square.rank.0),
    }
}

/// The other direction of [`to_rules_square`].
pub fn from_rules_square(rules: crate::chess_rules::Square) -> (square: Square)
    requires
        rules.wf(),
    ensures
        square.wf(),
        rules_square(square) == rules,
{
    Square {
        file: crate::chess::File(rules.file.0),
        rank: crate::chess::Rank(rules.rank.0),
    }
}

/// Whether the side to move owns the piece on `square`.
fn owns_piece_at(game: &Game, square: Square) -> (own: bool)
    requires
        square.wf(),
    ensures
        own == owns(game@, square),
{
    match game.piece_at(to_rules_square(square)) {
        Some((color, _)) => color == game.side_to_move(),
        None => false,
    }
}

/// Whether `square` is among `squares`.
fn lists_square(
    squares: &Vec<crate::chess_rules::Square>,
    square: crate::chess_rules::Square,
) -> (listed: bool)
    requires
        square.wf(),
        forall|k: int| 0 <= k < squares@.len() ==> (#[trigger] squares@[k]).wf(),
    ensures
        listed == square_indices(squares@).contains(square@),
{
    crate::chess_rules::game::lists(squares, square)
}

/// A side in words.
pub open spec fn side_word(color: Color) -> Seq<char> {
    match color {
        Color::White => "WHITE"@,
        Color::Black => "BLACK"@,
    }
}

/// The line describing whose move it is, or how the game ended.
pub open spec fn status_line(game: GameView) -> Seq<char> {
    match game.outcome {
        None => if check_count(game.board) > 0 {
            side_word(game.board.turn) + " TO MOVE \u{00B7} CHECK"@
        } else {
            side_word(game.board.turn) + " TO MOVE"@
        },
        Some(Outcome::Checkmate { winner }) => "CHECKMATE \u{00B7} "@ + side_word(winner) + " WINS"@,
        Some(Outcome::Stalemate) => "STALEMATE \u{00B7} DRAW"@,
        Some(Outcome::InsufficientMaterial) => "DRAW \u{00B7} INSUFFICIENT MATERIAL"@,
        Some(Outcome::FivefoldRepetition) => "DRAW \u{00B7} FIVEFOLD REPETITION"@,
        Some(Outcome::SeventyFiveMoveRule) => "DRAW \u{00B7} 75-MOVE RULE"@,
        Some(Outcome::Claimed(ClaimableDraw::ThreefoldRepetition)) =>
            "DRAW CLAIMED \u{00B7} THREEFOLD REPETITION"@,
        Some(Outcome::Claimed(ClaimableDraw::FiftyMoveRule)) =>
            "DRAW CLAIMED \u{00B7} FIFTY-MOVE RULE"@,
    }
}

fn side_name(color: Color) -> (name: &'static str)
    ensures
        name@ == side_word(color),
{
    match color {
        Color::White => "WHITE",
        Color::Black => "BLACK",
    }
}

/// The line describing whose move it is, or how the game ended.
pub fn status_text(game: &Game) -> (text: String)
    ensures
        text@ == status_line(game@),
{
    match game.outcome() {
        None => {
            let mut text = side_name(game.side_to_move()).to_owned();
            if game.is_in_check() {
                push_text(&mut text, " TO MOVE \u{00B7} CHECK");
            } else {
                push_text(&mut text, " TO MOVE");
            }
            text
        },
        Some(Outcome::Checkmate { winner }) => {
            let mut text = "CHECKMATE \u{00B7} ".to_owned();
            push_text(&mut text, side_name(winner));
            push_text(&mut text, " WINS");
            text
        },
        Some(Outcome::Stalemate) => "STALEMATE \u{00B7} DRAW".to_owned(),
        Some(Outcome::InsufficientMaterial) => "DRAW \u{00B7} INSUFFICIENT MATERIAL".to_owned(),
        Some(Outcome::FivefoldRepetition) => "DRAW \u{00B7} FIVEFOLD REPETITION".to_owned(),
        Some(Outcome::SeventyFiveMoveRule) => "DRAW \u{00B7} 75-MOVE RULE".to_owned(),
        Some(Outcome::Claimed(ClaimableDraw::ThreefoldRepetition)) => {
            "DRAW CLAIMED \u{00B7} THREEFOLD REPETITION".to_owned()
        },
        Some(Outcome::Claimed(ClaimableDraw::FiftyMoveRule)) => {
            "DRAW CLAIMED \u{00B7} FIFTY-MOVE RULE".to_owned()
        },
    }
}

/// What the selection line says: that a promotion is to be chosen, or the
/// selected square in capitals, or that there is none.
pub open spec fn selection_line(screen: ChessScreen) -> Seq<char> {
    if screen.pending_promotion is Some {
        "CHOOSE PROMOTION"@
    } else if screen.selected is Some {
        let square = screen.selected->0;
        seq![(65 + square.file@) as u8 as char, (49 + square.rank@) as u8 as char]
    } else {
        "--"@
    }
}

/// The line that shows what is selected.
pub fn selection_text(screen: &ChessScreen) -> (text: String)
    requires
        screen.wf(),
    ensures
        text@ == selection_line(*screen),
{
    if screen.pending_promotion.is_some() {
        return "CHOOSE PROMOTION".to_owned();
    }
    match screen.selected {
        Some(square) => {
            let mut text = String::new();
            push_char(&mut text, (65 + square.file.index()) as char);
            push_char(&mut text, (48 + square.rank.number()) as char);
            assert(text@ =~= selection_line(*screen));
            text
        },
        None => "--".to_owned(),
    }
}

/// The footer's labels from left to right: a claim is offered only while one
/// is available.
pub fn footer_labels(screen: &ChessScreen, game: &Game) -> (labels: Vec<&'static str>)
    requires
        game.wf(),
    ensures
        labels@.len() == (if claimable(game@) is Some {
            4int
        } else {
            3int
        }),
        labels@[0]@ == (if screen.new_game_armed {
            "CONFIRM NEW GAME?"@
        } else {
            "NEW GAME"@
        }),
        labels@[1]@ == "FLIP BOARD"@,
        labels@[2]@ == "HOME"@,
        claimable(game@) is Some ==> labels@[3]@ == "CLAIM DRAW"@,
{
    let mut labels: Vec<&'static str> = Vec::new();
    labels.push(
        if screen.new_game_armed {
            "CONFIRM NEW GAME?"
        } else {
            "NEW GAME"
        },
    );
    labels.push("FLIP BOARD");
    labels.push("HOME");
    if game.claimable_draw().is_some() {
        labels.push("CLAIM DRAW");
    }
    labels
}

/// The places ringed as destinations: where the piece picked up may go.
pub open spec fn ringed(screen: ChessScreen, game: GameView) -> Seq<int> {
    if screen.selected is Some && game.outcome is None {
        destinations(
            generated(game.board),
            screen.selected->0@,
            generated(game.board).len() as int,
        )
    } else {
        Seq::empty()
    }
}

/// The squares ringed as destinations.
pub fn shown_destinations(screen: &ChessScreen, game: &Game) -> (squares: Vec<Square>)
    requires
        screen.wf(),
        game.wf(),
        playable(game@.board),
    ensures
        squares@.map_values(|square: Square| square@) == ringed(*screen, game@),
        forall|k: int| 0 <= k < squares@.len() ==> (#[trigger] squares@[k]).wf(),
{
    let mut squares: Vec<Square> = Vec::new();
    let from = match screen.selected {
        Some(from) => from,
        None => {
            assert(squares@.map_values(|square: Square| square@) =~= Seq::<int>::empty());
            return squares;
        },
    };
    let legal = game.legal_destinations(to_rules_square(from));
    for index in 0..legal.len()
        invariant
            squares@.len() == index,
            forall|k: int| 0 <= k < legal@.len() ==> (#[trigger] legal@[k]).wf(),
            forall|k: int|
                0 <= k < index ==> (#[trigger] squares@[k]).wf() && squares@[k]@ == legal@[k]@,
    {
        squares.push(from_rules_square(legal[index]));
    }
    assert(squares@.map_values(|square: Square| square@) =~= square_indices(legal@));
    squares
}

/// The piece drawn on a square, if there is one.
pub fn placement_at(game: &Game, square: Square) -> (placement: Option<Placement>)
    requires
        square.wf(),
    ensures
        placement == (match game@.board.pieces[square@] {
            Some((color, kind)) => Some(
                Placement { piece: piece_of(kind), side: side_of(color) },
            ),
            None => None,
        }),
{
    match game.piece_at(to_rules_square(square)) {
        Some((color, kind)) => Some(Placement::new(to_side(color), to_piece(kind))),
        None => None,
    }
}

/// The pieces a pawn may become, in the order the picker shows them.
pub fn promotion_choices() -> (choices: [PieceKind; 4])
    ensures
        choices@ == seq![PieceKind::Queen, PieceKind::Rook, PieceKind::Bishop, PieceKind::Knight],
{
    let choices = [PieceKind::Queen, PieceKind::Rook, PieceKind::Bishop, PieceKind::Knight];
    assert(choices@ =~= seq![
        PieceKind::Queen,
        PieceKind::Rook,
        PieceKind::Bishop,
        PieceKind::Knight,
    ]);
    choices
}

/// A pointer that is not lifted changes nothing and asks for nothing.
pub proof fn law_hover_is_never_a_tap(screen: ChessScreen, game: GameView, hits: ChessHits)
    requires
        !hits.tap,
    ensures
        pressed(screen, game, hits) == (ChessStep { screen, game, action: Action::Nothing }),
{
}

/// A new game needs two taps: the first leaves the game alone, and only a
/// second one directly after it starts over.
pub proof fn law_new_game_needs_two_taps(screen: ChessScreen, game: GameView, hits: ChessHits)
    requires
        hits.tap && hits.new_game,
        !hits.picker && !hits.claim_draw && !hits.home && !hits.flip_board,
        !screen.new_game_armed,
    ensures
        pressed(screen, game, hits).game == game,
        pressed(screen, game, hits).screen.new_game_armed,
        pressed(pressed(screen, game, hits).screen, game, hits).game == start_game(),
{
}

/// Any other tap takes a half-asked new game back, but for those that the
/// promotion picker, a claim and home answer.
pub proof fn law_another_tap_disarms_a_new_game(
    screen: ChessScreen,
    game: GameView,
    hits: ChessHits,
)
    requires
        hits.tap && !hits.picker && !hits.claim_draw && !hits.home,
        hits.flip_board || !hits.new_game,
    ensures
        !pressed(screen, game, hits).screen.new_game_armed,
{
}

/// Home is always reachable, once a promotion is chosen: a tap on it asks for
/// the home screen and leaves everything as it is.
pub proof fn law_home_is_always_reachable(screen: ChessScreen, game: GameView, hits: ChessHits)
    requires
        hits.tap && hits.home,
        !hits.picker && !hits.claim_draw,
    ensures
        pressed(screen, game, hits) == (ChessStep { screen, game, action: Action::Home }),
{
}

/// A finished game is never changed by a tap, except to start over.
pub proof fn law_finished_game_is_kept(screen: ChessScreen, game: GameView, hits: ChessHits)
    requires
        game.outcome is Some,
        !(hits.new_game && screen.new_game_armed),
    ensures
        pressed(screen, game, hits).game == game,
{
}

/// A tap on the board picks up, puts down or moves a piece of the side to
/// move, and nothing else: the game changes only by a legal move.
pub proof fn law_board_tap_moves_legally(screen: ChessScreen, game: GameView, square: Square)
    ensures
        ({
            let next = square_tapped(screen, game, square).game;
            next == game || exists|from: Square|
                screen.selected == Some(from) && verdict(
                    game,
                    #[trigger] rules_move(from, square, None),
                ) is Ok && next == tried(game, rules_move(from, square, None))
        }),
{
    if screen.selected is Some {
        let from = screen.selected->0;
        let mv = rules_move(from, square, None);
        assert(screen.selected == Some(from));
    }
}

} // verus!
