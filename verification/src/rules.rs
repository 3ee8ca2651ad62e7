//! Trusted facade over the `shakmaty` rules library.
//!
//! The engine treats positions and moves as opaque values and reads
//! them only through the functions below.  Each one is a thin wrapper
//! whose contract Verus believes without proof; its doc comment names
//! the shakmaty item it relies on.  Nothing here decides anything: the
//! wrappers convert between shakmaty's types and plain values, and all
//! logic on those values is verified elsewhere.

use vstd::prelude::*;
use shakmaty::Position as _;
use shakmaty::Chess;
use shakmaty::Move;
use crate::board::BoardData;

verus! {

#[verifier::external_type_specification]
#[verifier::external_body]
pub struct ExChess(shakmaty::Chess);

#[verifier::external_type_specification]
#[verifier::external_body]
pub struct ExMove(shakmaty::Move);

/// Relies on shakmaty's `Board::white`: the squares occupied by White.
#[verifier::external_body]
pub fn white_bb(p: &Chess) -> u64 {
    p.board().white().0
}

/// Relies on shakmaty's `Board::black`: the squares occupied by Black.
#[verifier::external_body]
pub fn black_bb(p: &Chess) -> u64 {
    p.board().black().0
}

/// Relies on shakmaty's `Board::pawns`.
#[verifier::external_body]
pub fn pawns_bb(p: &Chess) -> u64 {
    p.board().pawns().0
}

/// Relies on shakmaty's `Board::knights`.
#[verifier::external_body]
pub fn knights_bb(p: &Chess) -> u64 {
    p.board().knights().0
}

/// Relies on shakmaty's `Board::bishops`.
#[verifier::external_body]
pub fn bishops_bb(p: &Chess) -> u64 {
    p.board().bishops().0
}

/// Relies on shakmaty's `Board::rooks`.
#[verifier::external_body]
pub fn rooks_bb(p: &Chess) -> u64 {
    p.board().rooks().0
}

/// Relies on shakmaty's `Board::queens`.
#[verifier::external_body]
pub fn queens_bb(p: &Chess) -> u64 {
    p.board().queens().0
}

/// Relies on shakmaty's `Board::kings`.
#[verifier::external_body]
pub fn kings_bb(p: &Chess) -> u64 {
    p.board().kings().0
}

/// Relies on shakmaty's `Position::turn`.
#[verifier::external_body]
pub fn side_to_move_is_white(p: &Chess) -> bool {
    p.turn() == shakmaty::Color::White
}

/// Gathers the bitboards of a position into the engine's own board
/// model.  Verified: it only assembles the wrappers' results.
pub fn board_data(p: &Chess) -> BoardData {
    BoardData {
        white: white_bb(p),
        black: black_bb(p),
        pawns: pawns_bb(p),
        knights: knights_bb(p),
        bishops: bishops_bb(p),
        rooks: rooks_bb(p),
        queens: queens_bb(p),
        kings: kings_bb(p),
        white_to_move: side_to_move_is_white(p),
    }
}

/// Relies on shakmaty's `Position::is_check`.
#[verifier::external_body]
pub fn position_in_check(p: &Chess) -> bool {
    p.is_check()
}

/// Relies on shakmaty's `Position::is_game_over`.
#[verifier::external_body]
pub fn position_is_game_over(p: &Chess) -> bool {
    p.is_game_over()
}

/// Relies on shakmaty's `Position::is_checkmate`.
#[verifier::external_body]
pub fn position_is_checkmate(p: &Chess) -> bool {
    p.is_checkmate()
}

/// Relies on shakmaty's `Position::legal_moves`, converted to a `Vec`.
#[verifier::external_body]
pub fn legal_moves_of(p: &Chess) -> Vec<Move> {
    p.legal_moves().into_iter().collect()
}

/// Relies on shakmaty's `Position::play` on a clone of the position:
/// the position after the move, or nothing when the move is not legal
/// there.  The validating entry point is used so that no input can
/// corrupt the position or panic.
#[verifier::external_body]
pub fn play_move(p: &Chess, m: Move) -> Option<Chess> {
    p.clone().play(m).ok()
}

/// Relies on shakmaty's `Position::swap_turn`: the same position with
/// the side to move flipped and en passant cleared, or nothing when the
/// rules library refuses the swap (side to move in check).
#[verifier::external_body]
pub fn try_swap_turn(p: &Chess) -> Option<Chess> {
    p.clone().swap_turn().ok()
}

/// Relies on shakmaty's `Position::zobrist_hash` with en-passant rights
/// always hashed, as a 64-bit key.
#[verifier::external_body]
pub fn zobrist_key(p: &Chess) -> u64 {
    p.zobrist_hash::<shakmaty::zobrist::Zobrist64>(shakmaty::EnPassantMode::Always).0
}

/// Relies on shakmaty's `Move::from`; a square index below 64, absent
/// only for piece drops, which never occur in legal standard chess.
#[verifier::external_body]
pub fn move_from_sq(m: &Move) -> (r: Option<u8>)
    ensures
        r matches Some(s) ==> s < 64,
{
    m.from().map(|s| s as u8)
}

/// Relies on shakmaty's `Move::to`; a square index below 64.
#[verifier::external_body]
pub fn move_to_sq(m: &Move) -> (r: u8)
    ensures
        r < 64,
{
    m.to() as u8
}

/// Relies on shakmaty's `Move::is_capture`.
#[verifier::external_body]
pub fn move_is_capture(m: &Move) -> bool {
    m.is_capture()
}

/// Relies on shakmaty's `Move::is_promotion`.
#[verifier::external_body]
pub fn move_is_promotion(m: &Move) -> bool {
    m.is_promotion()
}

/// Relies on the derived structural equality of shakmaty's `Move`, an
/// enum of squares and roles.
#[verifier::external_body]
pub fn moves_equal(a: &Move, b: &Move) -> (r: bool)
    ensures
        r == (a == b),
{
    a == b
}

/// Relies on shakmaty's `Board::role_at`: the role of the piece on the
/// square, indexed 1 (pawn) to 6 (king), or nothing when empty.
#[verifier::external_body]
pub fn role_at_sq(p: &Chess, sq: u8) -> (r: Option<u8>)
    requires
        sq < 64,
    ensures
        r matches Some(k) ==> 1 <= k <= 6,
{
    p.board().role_at(shakmaty::Square::new(sq as u32)).map(|role| role as u8)
}

/// Relies on shakmaty's `Epd::from_position` with en-passant rights
/// always kept, rendered as text: piece placement, side to move,
/// castling and en passant, separated by single spaces.
#[verifier::external_body]
pub fn epd_string(p: &Chess) -> String {
    format!("{}", shakmaty::fen::Epd::from_position(p, shakmaty::EnPassantMode::Always))
}

/// Relies on shakmaty's `UciMove` parser and `UciMove::to_move`: the
/// legal move of `p` that the UCI text denotes, or nothing when the
/// text does not parse or names no legal move.
#[verifier::external_body]
pub fn uci_to_legal_move(p: &Chess, text: &str) -> Option<Move> {
    text.parse::<shakmaty::uci::UciMove>().ok().and_then(|u| u.to_move(p).ok())
}

/// Relies on `std::time::SystemTime::now`, converted to nanoseconds
/// since the epoch; nothing is promised of the value.
#[verifier::external_body]
pub fn clock_nanos() -> u64 {
    std::time::SystemTime::now().duration_since(std::time::UNIX_EPOCH).map(
        |d| d.as_nanos() as u64,
    ).unwrap_or(0)
}

} // verus!
