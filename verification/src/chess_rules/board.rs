//! The position, as the `chess` crate keeps it and as the rules read it.
//!
//! Everything the rules take from that crate goes through this file. Squares
//! and pieces cross the border as numbers: a square as its `0..64` index, `a1`
//! first and rank by rank, a piece as its place in pawn, knight, bishop, rook,
//! queen, king, and a side as whether it is White.

use vstd::prelude::*;
use vstd::string::*;

use crate::chess_rules::types::{Color, PieceKind};

verus! {

/// What a position consists of.
pub struct BoardView {
    /// What stands on each of the sixty-four squares.
    pub pieces: Seq<Option<(Color, PieceKind)>>,
    /// Who moves next.
    pub turn: Color,
    /// White's castling rights: one for the king's side, two for the queen's.
    pub white_rights: u8,
    /// Black's castling rights.
    pub black_rights: u8,
    /// The square of a pawn that can be taken en passant.
    pub en_passant: Option<u8>,
}

impl BoardView {
    /// Sixty-four squares, and numbers in their range.
    pub open spec fn wf(self) -> bool {
        &&& self.pieces.len() == 64
        &&& self.white_rights < 4
        &&& self.black_rights < 4
        &&& self.en_passant is Some ==> self.en_passant->0 < 64
    }
}

/// A legal move as it is generated: from, to, and what a pawn becomes.
pub type Candidate = (u8, u8, Option<u8>);

/// A piece's place in pawn, knight, bishop, rook, queen, king.
pub open spec fn kind_index(kind: PieceKind) -> u8 {
    match kind {
        PieceKind::Pawn => 0,
        PieceKind::Knight => 1,
        PieceKind::Bishop => 2,
        PieceKind::Rook => 3,
        PieceKind::Queen => 4,
        PieceKind::King => 5,
    }
}

/// How many of the first `n` squares hold a piece of this kind.
pub open spec fn kind_count(
    pieces: Seq<Option<(Color, PieceKind)>>,
    kind: PieceKind,
    n: int,
) -> nat
    decreases n,
{
    if n <= 0 {
        0
    } else {
        kind_count(pieces, kind, n - 1) + (if pieces[n - 1] is Some && (pieces[n - 1]->0).1 == kind {
            1nat
        } else {
            0nat
        })
    }
}

/// How many of the first `n` squares hold a piece of this side.
pub open spec fn army(pieces: Seq<Option<(Color, PieceKind)>>, side: Color, n: int) -> nat
    decreases n,
{
    if n <= 0 {
        0
    } else {
        army(pieces, side, n - 1) + (if pieces[n - 1] is Some && (pieces[n - 1]->0).0 == side {
            1nat
        } else {
            0nat
        })
    }
}

/// How many of the first `n` squares hold a pawn of this side.
pub open spec fn pawns(pieces: Seq<Option<(Color, PieceKind)>>, side: Color, n: int) -> nat
    decreases n,
{
    if n <= 0 {
        0
    } else {
        pawns(pieces, side, n - 1) + (if pieces[n - 1] == Some((side, PieceKind::Pawn)) {
            1nat
        } else {
            0nat
        })
    }
}

/// The most entries a side's moves can take in the generator's list, whatever
/// the position: one for each piece, and one more for each of at most two pawns
/// that may take en passant.
pub open spec fn entries(pieces: Seq<Option<(Color, PieceKind)>>, side: Color) -> int {
    let army = army(pieces, side, 64) as int;
    let pawns = pawns(pieces, side, 64) as int;
    army + (if pawns < 2 {
        pawns
    } else {
        2
    })
}

/// The piece that starts the game on the square at `index`.
pub open spec fn start_piece(index: int) -> Option<(Color, PieceKind)> {
    let (file, rank) = (index % 8, index / 8);
    let kind = if file == 0 || file == 7 {
        PieceKind::Rook
    } else if file == 1 || file == 6 {
        PieceKind::Knight
    } else if file == 2 || file == 5 {
        PieceKind::Bishop
    } else if file == 3 {
        PieceKind::Queen
    } else {
        PieceKind::King
    };
    if rank == 0 {
        Some((Color::White, kind))
    } else if rank == 1 {
        Some((Color::White, PieceKind::Pawn))
    } else if rank == 6 {
        Some((Color::Black, PieceKind::Pawn))
    } else if rank == 7 {
        Some((Color::Black, kind))
    } else {
        None
    }
}

/// The position a game starts from.
pub open spec fn start_view() -> BoardView {
    BoardView {
        pieces: Seq::new(64, |i: int| start_piece(i)),
        turn: Color::White,
        white_rights: 3,
        black_rights: 3,
        en_passant: None,
    }
}

/// Whether the side to move can go on.
#[derive(Debug, Clone, Copy, PartialEq, Eq, Structural)]
pub enum Status {
    /// There is a legal move.
    Ongoing,
    /// There is none, and no check.
    Stalemate,
    /// There is none, and a check.
    Checkmate,
}

/// Whether the side to move of a position can go on.
pub open spec fn status_of(view: BoardView) -> Status {
    if generated(view).len() > 0 {
        Status::Ongoing
    } else if check_count(view) == 0 {
        Status::Stalemate
    } else {
        Status::Checkmate
    }
}

/// The rank a side's pawns promote on.
pub open spec fn far_rank(side: Color) -> int {
    match side {
        Color::White => 7,
        Color::Black => 0,
    }
}

/// Whether a move takes a pawn of the side to move to its far rank.
pub open spec fn is_promotion(view: BoardView, from: int, to: int) -> bool {
    view.pieces[from] == Some((view.turn, PieceKind::Pawn)) && to / 8 == far_rank(view.turn)
}

/// What every generated move is like.
pub open spec fn candidate_shape(view: BoardView, candidate: Candidate) -> bool {
    let (from, to, promotion) = candidate;
    &&& from < 64
    &&& to < 64
    &&& from != to
    &&& view.pieces[from as int] is Some
    &&& (view.pieces[from as int]->0).0 == view.turn
    &&& promotion is Some <==> is_promotion(view, from as int, to as int)
    &&& promotion is Some ==> 1 <= promotion->0 <= 4
}

/// Where one promotion is among the moves, so are those to the three other
/// pieces.
pub open spec fn offers_every_promotion(moves: Seq<Candidate>) -> bool {
    forall|k: int, piece: u8|
        0 <= k < moves.len() && moves[k].2 is Some && 1 <= piece <= 4 ==> #[trigger] moves.contains(
            (moves[k].0, moves[k].1, Some(piece)),
        )
}

/// What a legal move does to a position, whatever the piece.
pub open spec fn follows(view: BoardView, candidate: Candidate, next: BoardView) -> bool {
    let (from, to, promotion) = candidate;
    &&& next.turn == view.turn.other()
    &&& next.pieces[from as int] is None
    &&& next.pieces[to as int] is Some
    &&& (next.pieces[to as int]->0).0 == view.turn
    &&& kind_index((next.pieces[to as int]->0).1) == (match promotion {
        Some(kind) => kind,
        None => kind_index((view.pieces[from as int]->0).1),
    })
    &&& playable(next)
}

/// The square a pawn that can be taken en passant passed over.
pub open spec fn passed_square(turn: Color, pawn: int) -> int {
    match turn {
        Color::White => pawn + 8,
        Color::Black => pawn - 8,
    }
}

/// Whether a knight on `from` attacks `to`.
pub open spec fn knight_attacks(from: int, to: int) -> bool {
    let (files, ranks) = (from % 8 - to % 8, from / 8 - to / 8);
    ((files == 1 || files == -1) && (ranks == 2 || ranks == -2)) || ((files == 2 || files == -2) && (
    ranks == 1 || ranks == -1))
}

/// Whether a pawn of `side` on `from` attacks `to`.
pub open spec fn pawn_attacks(side: Color, from: int, to: int) -> bool {
    let files = from % 8 - to % 8;
    (files == 1 || files == -1) && to / 8 == (match side {
        Color::White => from / 8 + 1,
        Color::Black => from / 8 - 1,
    })
}

/// Whether the piece on `from` is a knight or a pawn of the other side that
/// attacks the king of the side to move on `king`.
pub open spec fn steps_on_king(view: BoardView, from: int, king: int) -> bool {
    let other = view.turn.other();
    &&& view.pieces[king] == Some((view.turn, PieceKind::King))
    &&& {
        ||| view.pieces[from] == Some((other, PieceKind::Knight)) && knight_attacks(from, king)
        ||| view.pieces[from] == Some((other, PieceKind::Pawn)) && pawn_attacks(other, from, king)
    }
}

/// A pawn that can be taken en passant can only just have moved: the square it
/// passed over is empty, and no knight or other pawn gives check.
pub open spec fn en_passant_sound(view: BoardView) -> bool {
    view.en_passant is Some ==> {
        let pawn = view.en_passant->0 as int;
        &&& 0 <= passed_square(view.turn, pawn) < 64
        &&& view.pieces[passed_square(view.turn, pawn)] is None
        &&& forall|from: int, king: int|
            0 <= from < 64 && 0 <= king < 64 && #[trigger] steps_on_king(view, from, king) ==> from
                == pawn
    }
}

/// A position that moves can be generated in, and after every move again: each
/// side's moves fit the generator's list of eighteen entries, and en passant is
/// offered only where it can have arisen.
pub open spec fn playable(view: BoardView) -> bool {
    &&& view.wf()
    &&& entries(view.pieces, Color::White) <= 18
    &&& entries(view.pieces, Color::Black) <= 18
    &&& en_passant_sound(view)
}

/// Where a placement field has been read to, and what it put on the board.
pub struct Placing {
    /// The rank being filled.
    pub rank: int,
    /// The next file to fill.
    pub file: int,
    /// The letter last written on each square, a space for none.
    pub letters: Seq<char>,
}

/// Whether a letter of a placement field stands for a piece.
pub open spec fn is_piece_letter(c: char) -> bool {
    c == 'p' || c == 'n' || c == 'b' || c == 'r' || c == 'q' || c == 'k' || c == 'P' || c == 'N'
        || c == 'B' || c == 'R' || c == 'Q' || c == 'K'
}

/// What the first `n` characters of a placement field put on the board, or
/// `None` where one of them means nothing. Ranks and files wrap round.
pub open spec fn placed(text: Seq<char>, n: int) -> Option<Placing>
    decreases n,
{
    if n <= 0 {
        Some(Placing { rank: 7, file: 0, letters: Seq::new(64, |i: int| ' ') })
    } else {
        let c = text[n - 1];
        match placed(text, n - 1) {
            None => None,
            Some(at) => if c == '/' {
                Some(Placing { rank: (at.rank + 7) % 8, file: 0, ..at })
            } else if '1' <= c && c <= '8' {
                Some(Placing { file: (at.file + (c as int - 48)) % 8, ..at })
            } else if is_piece_letter(c) {
                Some(
                    Placing {
                        file: (at.file + 1) % 8,
                        letters: at.letters.update(at.rank * 8 + at.file, c),
                        ..at
                    },
                )
            } else {
                None
            },
        }
    }
}

/// Where the first field of a text ends.
pub open spec fn field_end(text: Seq<char>, from: int) -> int
    decreases text.len() - from,
{
    if from >= text.len() || text[from] == ' ' {
        from
    } else {
        field_end(text, from + 1)
    }
}

/// Whether the placement that a text begins with puts both kings on the board.
pub open spec fn places_kings(text: Seq<char>) -> bool {
    match placed(text, field_end(text, 0)) {
        None => false,
        Some(at) => at.letters.contains('K') && at.letters.contains('k'),
    }
}

/// The `chess` crate's board.
#[verifier::external_type_specification]
#[verifier::external_body]
pub struct ExBoard(chess::Board);

/// What a board of the `chess` crate holds.
pub uninterp spec fn board_view(board: chess::Board) -> BoardView;

/// The position a line of Forsyth-Edwards notation sets up, where it does.
pub uninterp spec fn fen_view(text: Seq<char>) -> Option<BoardView>;

/// The legal moves of a position, in the order they are generated.
pub uninterp spec fn generated(view: BoardView) -> Seq<Candidate>;

/// The position after a legal move.
pub uninterp spec fn moved(view: BoardView, candidate: Candidate) -> BoardView;

/// How many pieces give check to the side to move.
pub uninterp spec fn check_count(view: BoardView) -> u32;

/// `Board::default` is the starting position.
#[verifier::external_body]
pub(crate) fn default_board() -> (board: chess::Board)
    ensures
        board_view(board) == start_view(),
{
    chess::Board::default()
}

/// `Board::side_to_move` says who moves next.
#[verifier::external_body]
pub(crate) fn white_to_move(board: &chess::Board) -> (white: bool)
    ensures
        white == (board_view(*board).turn == Color::White),
{
    board.side_to_move() == chess::Color::White
}

/// `Board::from_str` reads Forsyth-Edwards notation and refuses a board that
/// fails its sanity check. What it makes of a text is its own; what it gives is
/// a position. It looks for both kings before it checks that they are there,
/// so a text that leaves one out is not for it.
#[verifier::external_body]
pub(crate) fn parse_board(text: &str) -> (board: Option<chess::Board>)
    requires
        places_kings(text@),
    ensures
        fen_view(text@) == (match board {
            Some(board) => Some(board_view(board)),
            None => None,
        }),
        board is Some ==> board_view(board->0).wf(),
{
    <chess::Board as std::str::FromStr>::from_str(text).ok()
}

/// `Board::piece_on` is the kind of piece on a square.
#[verifier::external_body]
pub(crate) fn piece_on(board: &chess::Board, square: u8) -> (kind: Option<u8>)
    requires
        square < 64,
    ensures
        kind == (match board_view(*board).pieces[square as int] {
            Some((side, kind)) => Some(kind_index(kind)),
            None => None,
        }),
{
    board.piece_on(chess::ALL_SQUARES[square as usize]).map(|piece| piece.to_index() as u8)
}

/// `Board::color_on` is the side of the piece on a square.
#[verifier::external_body]
pub(crate) fn white_on(board: &chess::Board, square: u8) -> (white: Option<bool>)
    requires
        square < 64,
    ensures
        white == (match board_view(*board).pieces[square as int] {
            Some((side, kind)) => Some(side == Color::White),
            None => None,
        }),
{
    board.color_on(chess::ALL_SQUARES[square as usize]).map(|color| color == chess::Color::White)
}

/// `Board::castle_rights` is which ways a side may still castle, as the sum of
/// one for the king's side and two for the queen's.
#[verifier::external_body]
pub(crate) fn castle_bits(board: &chess::Board, white: bool) -> (bits: u8)
    ensures
        bits == (if white {
            board_view(*board).white_rights
        } else {
            board_view(*board).black_rights
        }),
        bits < 4,
{
    let color = if white {
        chess::Color::White
    } else {
        chess::Color::Black
    };
    board.castle_rights(color).to_index() as u8
}

/// `Board::en_passant` is the square of the pawn that can be taken en passant.
#[verifier::external_body]
pub(crate) fn en_passant(board: &chess::Board) -> (square: Option<u8>)
    ensures
        square == board_view(*board).en_passant,
        square is Some ==> square->0 < 64,
{
    board.en_passant().map(|square| square.to_index() as u8)
}

/// `Board::pieces` is the set of squares that hold a kind of piece, and
/// `BitBoard::popcnt` its size.
#[verifier::external_body]
pub(crate) fn piece_count(board: &chess::Board, kind: u8) -> (count: u32)
    requires
        kind < 6,
    ensures
        forall|piece: PieceKind|
            kind_index(piece) == kind ==> count == #[trigger] kind_count(
                board_view(*board).pieces,
                piece,
                64,
            ),
        count <= 64,
{
    board.pieces(chess::ALL_PIECES[kind as usize]).popcnt()
}

/// `Board::checkers` is the set of pieces that give check, and
/// `BitBoard::popcnt` its size.
#[verifier::external_body]
pub(crate) fn checkers(board: &chess::Board) -> (count: u32)
    ensures
        count == check_count(board_view(*board)),
{
    board.checkers().popcnt()
}

/// `MoveGen::new_legal` generates the legal moves. Each moves a piece of the
/// side to move, and promotes exactly where a pawn reaches the far rank; a pawn
/// that promotes may become any of the four. The generator's list has room for
/// eighteen entries, and it takes en passant for granted where it is offered.
#[verifier::external_body]
pub(crate) fn legal_moves(board: &chess::Board) -> (moves: Vec<Candidate>)
    requires
        playable(board_view(*board)),
    ensures
        moves@ == generated(board_view(*board)),
        forall|k: int|
            0 <= k < moves@.len() ==> candidate_shape(board_view(*board), #[trigger] moves@[k]),
        offers_every_promotion(moves@),
{
    chess::MoveGen::new_legal(board).map(
        |m| (
            m.get_source().to_index() as u8,
            m.get_dest().to_index() as u8,
            m.get_promotion().map(|piece| piece.to_index() as u8),
        )).collect()
}

/// `Board::make_move_new` is the board after a legal move. The piece, or what
/// it promotes to, stands on the destination, its square is empty, and the
/// other side is to move. No side gains a piece or a pawn, and en passant is
/// offered only after a pawn's double step, so moves can be generated again.
#[verifier::external_body]
pub(crate) fn make_move(board: &chess::Board, candidate: Candidate) -> (next: chess::Board)
    requires
        playable(board_view(*board)),
        generated(board_view(*board)).contains(candidate),
        candidate_shape(board_view(*board), candidate),
    ensures
        board_view(next) == moved(board_view(*board), candidate),
        follows(board_view(*board), candidate, board_view(next)),
{
    board.make_move_new(
        chess::ChessMove::new(
            chess::ALL_SQUARES[candidate.0 as usize],
            chess::ALL_SQUARES[candidate.1 as usize],
            candidate.2.map(|piece| chess::ALL_PIECES[piece as usize]),
        ),
    )
}

/// `Board::status`: without a legal move it is checkmate in check and stalemate
/// otherwise; with one the game goes on.
#[verifier::external_body]
pub(crate) fn status(board: &chess::Board) -> (status: Status)
    requires
        playable(board_view(*board)),
    ensures
        status == status_of(board_view(*board)),
{
    match board.status() {
        chess::BoardStatus::Ongoing => Status::Ongoing,
        chess::BoardStatus::Stalemate => Status::Stalemate,
        chess::BoardStatus::Checkmate => Status::Checkmate,
    }
}

/// Whether the placement that a text begins with puts both kings on the board.
pub(crate) fn has_kings(text: &str) -> (both: bool)
    ensures
        both == places_kings(text@),
{
    let length: usize = text.unicode_len();
    let mut letters: Vec<char> = Vec::new();
    for square in 0..64usize
        invariant
            letters@.len() == square,
            forall|i: int| 0 <= i < square ==> letters@[i] == ' ',
    {
        letters.push(' ');
    }
    let mut rank: usize = 7;
    let mut file: usize = 0;
    let mut next: usize = 0;
    assert(letters@ =~= Seq::new(64, |i: int| ' '));
    let mut reading = next < length && text.get_char(next) != ' ';
    while reading
        invariant
            length == text@.len(),
            next <= length,
            reading == (next < length && text@[next as int] != ' '),
            letters@.len() == 64,
            rank < 8,
            file < 8,
            field_end(text@, 0) == field_end(text@, next as int),
            placed(text@, next as int) == Some(
                Placing { rank: rank as int, file: file as int, letters: letters@ },
            ),
        decreases length - next,
    {
        let c: char = text.get_char(next);
        proof {
            lemma_field_end(text@, next as int + 1);
            if !(c == '/' || ('1' <= c && c <= '8') || is_piece_letter(c)) {
                assert(placed(text@, next + 1) is None);
                lemma_placed_none(text@, next + 1, field_end(text@, 0));
            }
        }
        if c == '/' {
            rank = (rank + 7) % 8;
            file = 0;
        } else if '1' <= c && c <= '8' {
            file = (file + (c as usize - 48)) % 8;
        } else if c == 'p' || c == 'n' || c == 'b' || c == 'r' || c == 'q' || c == 'k' || c == 'P'
            || c == 'N' || c == 'B' || c == 'R' || c == 'Q' || c == 'K' {
            letters[rank * 8 + file] = c;
            file = (file + 1) % 8;
        } else {
            return false;
        }
        next = next + 1;
        reading = next < length && text.get_char(next) != ' ';
    }
    let mut white = false;
    let mut black = false;
    for square in 0..64usize
        invariant
            letters@.len() == 64,
            white <==> exists|i: int| 0 <= i < square && #[trigger] letters@[i] == 'K',
            black <==> exists|i: int| 0 <= i < square && #[trigger] letters@[i] == 'k',
    {
        if letters[square] == 'K' {
            assert(letters@[square as int] == 'K');
            white = true;
        }
        if letters[square] == 'k' {
            assert(letters@[square as int] == 'k');
            black = true;
        }
    }
    white && black
}

proof fn lemma_field_end(text: Seq<char>, from: int)
    requires
        0 <= from <= text.len(),
    ensures
        from <= field_end(text, from) <= text.len(),
    decreases text.len() - from,
{
    if from < text.len() && text[from] != ' ' {
        lemma_field_end(text, from + 1);
    }
}

proof fn lemma_placed_none(text: Seq<char>, m: int, n: int)
    requires
        0 < m <= n,
        placed(text, m) is None,
    ensures
        placed(text, n) is None,
    decreases n,
{
    if m < n {
        lemma_placed_none(text, m, n - 1);
    }
}

} // verus!
