//! The interface to the rules oracle: the plain-value types the engine
//! reads (sides, pieces, raw outcomes), names for the oracle's results,
//! and the trusted boundary to the `chess` crate, which owns the board
//! representation, legal-move generation, move application, outcome
//! detection and notation parsing.

use vstd::prelude::*;

verus! {

/// One of the two players. The side to move alternates strictly.
#[derive(Clone, Copy, Debug, PartialEq, Eq, Structural)]
pub enum Side {
    White,
    Black,
}

impl Side {
    /// The opposing side.
    pub open spec fn spec_opposite(self) -> Side {
        match self {
            Side::White => Side::Black,
            Side::Black => Side::White,
        }
    }

    /// Returns the opposing side; never returns its argument.
    pub fn opposite(self) -> (r: Side)
        ensures
            r == self.spec_opposite(),
            r != self,
    {
        match self {
            Side::White => Side::Black,
            Side::Black => Side::White,
        }
    }
}

/// Flipping a side twice gives the side back, and never the same side.
pub proof fn lemma_opposite_involution(s: Side)
    ensures
        s.spec_opposite().spec_opposite() == s,
        s.spec_opposite() != s,
{
}

/// The kind of piece standing on a square, as the evaluator reads it.
#[derive(Clone, Copy, Debug, PartialEq, Eq, Structural)]
pub enum Piece {
    Pawn,
    Knight,
    Bishop,
    Rook,
    Queen,
    King,
}

/// The oracle's verdict on a position, relative to the side to move:
/// the game goes on, the side to move is mated, or it is stalemated.
#[derive(Clone, Copy, Debug, PartialEq, Eq, Structural)]
pub enum RawStatus {
    Ongoing,
    Checkmate,
    Stalemate,
}

#[verifier::external_type_specification]
#[verifier::external_body]
pub struct ExBoard(chess::Board);

#[verifier::external_type_specification]
#[verifier::external_body]
pub struct ExChessMove(chess::ChessMove);

/// Whether a position is the standard starting position.
pub uninterp spec fn is_starting_position(b: chess::Board) -> bool;

/// The legal moves of a position, in the oracle's fixed enumeration
/// order. The order is part of the contract: it decides search
/// tie-breaks. An empty sequence signals an ended game.
pub uninterp spec fn legal_moves_of(b: chess::Board) -> Seq<chess::ChessMove>;

/// The position reached by playing a legal move.
pub uninterp spec fn board_after(b: chess::Board, m: chess::ChessMove) -> chess::Board;

/// The oracle's verdict on a position.
pub uninterp spec fn status_of(b: chess::Board) -> RawStatus;

/// Whether the side to move stands in check.
pub uninterp spec fn is_in_check(b: chess::Board) -> bool;

/// The piece standing on the square with the given index, if any.
pub uninterp spec fn piece_at(b: chess::Board, idx: int) -> Option<Piece>;

/// The owner of the piece standing on the square with the given index.
pub uninterp spec fn color_at(b: chess::Board, idx: int) -> Option<Side>;

/// The move denoted by a text in coordinate (UCI) notation, if any; a
/// function of the text alone, independent of any position.
pub uninterp spec fn uci_move_of(s: Seq<char>) -> Option<chess::ChessMove>;

/// The move denoted by a text in standard algebraic notation, read
/// against a position, if any.
pub uninterp spec fn san_move_of(b: chess::Board, s: Seq<char>) -> Option<chess::ChessMove>;

/// Relies on chess::Board::default: the fixed standard starting layout.
#[verifier::external_body]
pub(crate) fn starting_board() -> (r: chess::Board)
    ensures
        is_starting_position(r),
{
    chess::Board::default()
}

/// Relies on chess::MoveGen::new_legal: it enumerates the legal moves of
/// a position in the generator's fixed order, a function of the position
/// alone.
#[verifier::external_body]
pub(crate) fn legal_moves(board: &chess::Board) -> (r: Vec<chess::ChessMove>)
    ensures
        r@ == legal_moves_of(*board),
{
    chess::MoveGen::new_legal(board).collect()
}

/// Relies on chess::Board::status: it answers Ongoing exactly when legal
/// moves remain, and on an ended game tells checkmate from stalemate by
/// whether the side to move stands in check.
#[verifier::external_body]
pub(crate) fn raw_status(board: &chess::Board) -> (r: RawStatus)
    ensures
        r == status_of(*board),
        (r == RawStatus::Ongoing <==> legal_moves_of(*board).len() > 0),
        (r == RawStatus::Checkmate ==> is_in_check(*board)),
        (r == RawStatus::Stalemate ==> !is_in_check(*board)),
{
    match board.status() {
        chess::BoardStatus::Ongoing => RawStatus::Ongoing,
        chess::BoardStatus::Checkmate => RawStatus::Checkmate,
        chess::BoardStatus::Stalemate => RawStatus::Stalemate,
    }
}

/// Relies on chess::Board::make_move_new: pure application of a move,
/// with no effect on its argument; it is only defined on legal moves.
#[verifier::external_body]
pub(crate) fn apply_move(board: &chess::Board, mv: chess::ChessMove) -> (r: chess::Board)
    requires
        legal_moves_of(*board).contains(mv),
    ensures
        r == board_after(*board, mv),
{
    board.make_move_new(mv)
}

/// Relies on chess::Board::legal: it tests membership in the moves that
/// chess::MoveGen::new_legal enumerates.
#[verifier::external_body]
pub(crate) fn is_legal(board: &chess::Board, mv: chess::ChessMove) -> (r: bool)
    ensures
        r == legal_moves_of(*board).contains(mv),
{
    board.legal(mv)
}

/// Relies on chess::ChessMove::from_str: it parses coordinate (UCI)
/// notation, reading the text alone; it does not check legality.
#[verifier::external_body]
pub(crate) fn parse_uci(text: &str) -> (r: Option<chess::ChessMove>)
    ensures
        r == uci_move_of(text@),
{
    <chess::ChessMove as core::str::FromStr>::from_str(text).ok()
}

/// Relies on chess::ChessMove::from_san: it parses algebraic notation
/// against a position, and only ever returns a move drawn from that
/// position's legal moves (it searches chess::MoveGen::new_legal).
#[verifier::external_body]
pub(crate) fn parse_san(board: &chess::Board, text: &str) -> (r: Option<chess::ChessMove>)
    ensures
        r == san_move_of(*board, text@),
        (r matches Some(m) ==> legal_moves_of(*board).contains(m)),
{
    chess::ChessMove::from_san(board, text).ok()
}

/// Relies on chess::Board::piece_on, read through the square table
/// chess::ALL_SQUARES: the piece standing on the given square.
#[verifier::external_body]
pub(crate) fn piece_on(board: &chess::Board, idx: u8) -> (r: Option<Piece>)
    requires
        idx < 64,
    ensures
        r == piece_at(*board, idx as int),
{
    match board.piece_on(chess::ALL_SQUARES[idx as usize]) {
        Some(chess::Piece::Pawn) => Some(Piece::Pawn),
        Some(chess::Piece::Knight) => Some(Piece::Knight),
        Some(chess::Piece::Bishop) => Some(Piece::Bishop),
        Some(chess::Piece::Rook) => Some(Piece::Rook),
        Some(chess::Piece::Queen) => Some(Piece::Queen),
        Some(chess::Piece::King) => Some(Piece::King),
        None => None,
    }
}

/// Relies on chess::Board::color_on, read through the square table
/// chess::ALL_SQUARES: the owner of the piece on the given square. It
/// answers Some exactly where chess::Board::piece_on does, both reading
/// the same occupancy sets of the board.
#[verifier::external_body]
pub(crate) fn color_on(board: &chess::Board, idx: u8) -> (r: Option<Side>)
    requires
        idx < 64,
    ensures
        r == color_at(*board, idx as int),
        (r is Some <==> piece_at(*board, idx as int) is Some),
{
    match board.color_on(chess::ALL_SQUARES[idx as usize]) {
        Some(chess::Color::White) => Some(Side::White),
        Some(chess::Color::Black) => Some(Side::Black),
        None => None,
    }
}

} // verus!
