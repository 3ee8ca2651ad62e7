//! Color symmetry of the evaluation.
//!
//! Mirroring a position — swapping the colors and reflecting the
//! board vertically, with the side to move flipped — must not change
//! its score: the evaluator has no preference for White or Black.
//! This module defines the mirror on the board model and proves the
//! law for the whole of `eval_spec`.

use vstd::prelude::*;
use crate::board::{
    adjacent_files_mask, ahead_mask, file_mask, file_of, has_bit, pop_spec, rank_of, BoardData,
};
use crate::evaluation::{
    bishop_pair_term, clamp_score, enemy_bb, eval_spec, own_bb, phase_of, piece_term, pst_value,
    rel_rank, shield_pawn, sum_terms,
};

verus! {

/// Vertical flip of a bitboard: the byte of rank `k` moves to rank
/// `7 - k`, each file staying in place.
pub open spec fn mirror_bb(x: u64) -> u64 {
    ((x & 0xff) << 56u64) | ((x & 0xff00) << 40u64) | ((x & 0xff0000) << 24u64) | ((x
        & 0xff000000) << 8u64) | ((x >> 8u64) & 0xff000000) | ((x >> 24u64) & 0xff0000) | ((x
        >> 40u64) & 0xff00) | (x >> 56u64)
}

/// The mirrored board: colors swapped, every bitboard flipped
/// vertically, the side to move reversed.
pub open spec fn mirror_board(b: BoardData) -> BoardData {
    BoardData {
        white: mirror_bb(b.black),
        black: mirror_bb(b.white),
        pawns: mirror_bb(b.pawns),
        knights: mirror_bb(b.knights),
        bishops: mirror_bb(b.bishops),
        rooks: mirror_bb(b.rooks),
        queens: mirror_bb(b.queens),
        kings: mirror_bb(b.kings),
        white_to_move: !b.white_to_move,
    }
}

/// Bit `8k + f` of the mirror is bit `8(7-k) + f` of the original.
pub proof fn lemma_mirror_bit(x: u64, k: u64, f: u64)
    requires
        k < 8,
        f < 8,
    ensures
        has_bit(mirror_bb(x), (8 * k + f) as int) == has_bit(x, (8 * (7 - k) + f) as int),
{
    let m = mirror_bb(x);
    let s: u64 = (8 * k + f) as u64;
    let t: u64 = (8 * (7 - k) + f) as u64;
    assert((m >> s) & 1u64 == (x >> t) & 1u64) by (bit_vector)
        requires
            m == ((x & 0xff) << 56u64) | ((x & 0xff00) << 40u64) | ((x & 0xff0000) << 24u64) | ((x
                & 0xff000000) << 8u64) | ((x >> 8u64) & 0xff000000) | ((x >> 24u64) & 0xff0000) | ((
            x >> 40u64) & 0xff00) | (x >> 56u64),
            s == 8 * k + f,
            t == 8 * (7 - k) + f,
            k < 8,
            f < 8,
    ;
}

/// The mirror distributes over intersection.
pub proof fn lemma_mirror_and(x: u64, y: u64)
    ensures
        mirror_bb(x) & mirror_bb(y) == mirror_bb(x & y),
{
    let mx = mirror_bb(x);
    let my = mirror_bb(y);
    let z = x & y;
    let mz = mirror_bb(z);
    assert(mx & my == mz) by (bit_vector)
        requires
            mx == ((x & 0xff) << 56u64) | ((x & 0xff00) << 40u64) | ((x & 0xff0000) << 24u64) | ((x
                & 0xff000000) << 8u64) | ((x >> 8u64) & 0xff000000) | ((x >> 24u64) & 0xff0000) | ((
            x >> 40u64) & 0xff00) | (x >> 56u64),
            my == ((y & 0xff) << 56u64) | ((y & 0xff00) << 40u64) | ((y & 0xff0000) << 24u64) | ((y
                & 0xff000000) << 8u64) | ((y >> 8u64) & 0xff000000) | ((y >> 24u64) & 0xff0000) | ((
            y >> 40u64) & 0xff00) | (y >> 56u64),
            mz == ((z & 0xff) << 56u64) | ((z & 0xff00) << 40u64) | ((z & 0xff0000) << 24u64) | ((z
                & 0xff000000) << 8u64) | ((z >> 8u64) & 0xff000000) | ((z >> 24u64) & 0xff0000) | ((
            z >> 40u64) & 0xff00) | (z >> 56u64),
            z == x & y,
    ;
}

/// The mirror of a bitboard is empty exactly when the board is.
pub proof fn lemma_mirror_zero(x: u64)
    ensures
        (mirror_bb(x) == 0) == (x == 0),
{
    let m = mirror_bb(x);
    assert((m == 0) == (x == 0)) by (bit_vector)
        requires
            m == ((x & 0xff) << 56u64) | ((x & 0xff00) << 40u64) | ((x & 0xff0000) << 24u64) | ((x
                & 0xff000000) << 8u64) | ((x >> 8u64) & 0xff000000) | ((x >> 24u64) & 0xff0000) | ((
            x >> 40u64) & 0xff00) | (x >> 56u64),
    ;
}

/// File masks are unchanged by the vertical flip.
pub proof fn lemma_mirror_file_mask(f: int)
    ensures
        mirror_bb(crate::board::file_mask(f)) == crate::board::file_mask(f),
{
    if 0 <= f < 8 {
        let fu = f as u64;
        let x = crate::board::file_mask(f);
        let m = mirror_bb(x);
        assert(m == x) by (bit_vector)
            requires
                m == ((x & 0xff) << 56u64) | ((x & 0xff00) << 40u64) | ((x & 0xff0000) << 24u64)
                    | ((x & 0xff000000) << 8u64) | ((x >> 8u64) & 0xff000000) | ((x >> 24u64)
                    & 0xff0000) | ((x >> 40u64) & 0xff00) | (x >> 56u64),
                x == 0x0101010101010101u64 << fu,
                fu < 8,
        ;
    } else {
        lemma_mirror_zero(0);
    }
}

/// The squares ahead of rank `r` for one color flip to the squares
/// ahead of rank `7 - r` for the other.
pub proof fn lemma_mirror_ahead(white: bool, r: int)
    requires
        0 <= r < 8,
    ensures
        mirror_bb(crate::board::ahead_mask(white, r)) == crate::board::ahead_mask(!white, 7 - r),
{
    let x = crate::board::ahead_mask(white, r);
    let m = mirror_bb(x);
    if white {
        if r == 7 {
            lemma_mirror_zero(0);
        } else {
            let ru = r as u64;
            assert(m == (1u64 << ((8 * (7 - ru)) as u64)) - 1) by (bit_vector)
                requires
                    m == ((x & 0xff) << 56u64) | ((x & 0xff00) << 40u64) | ((x & 0xff0000)
                        << 24u64) | ((x & 0xff000000) << 8u64) | ((x >> 8u64) & 0xff000000) | ((x
                        >> 24u64) & 0xff0000) | ((x >> 40u64) & 0xff00) | (x >> 56u64),
                    x == 0xffffffffffffffffu64 << ((8 * (ru + 1)) as u64),
                    ru < 7,
            ;
        }
    } else {
        if r == 0 {
            lemma_mirror_zero(0);
        } else {
            let ru = r as u64;
            assert(1u64 << ((8 * ru) as u64) >= 1u64) by (bit_vector)
                requires
                    1 <= ru < 8,
            ;
            assert(x == (1u64 << ((8 * ru) as u64)) - 1);
            assert(m == 0xffffffffffffffffu64 << ((8 * (8 - ru)) as u64)) by (bit_vector)
                requires
                    m == ((x & 0xff) << 56u64) | ((x & 0xff00) << 40u64) | ((x & 0xff0000)
                        << 24u64) | ((x & 0xff000000) << 8u64) | ((x >> 8u64) & 0xff000000) | ((x
                        >> 24u64) & 0xff0000) | ((x >> 40u64) & 0xff00) | (x >> 56u64),
                    x == (1u64 << ((8 * ru) as u64)) - 1,
                    1 <= ru < 8,
            ;
        }
    }
}

/// The mirror distributes over union.
pub proof fn lemma_mirror_or(x: u64, y: u64)
    ensures
        mirror_bb(x) | mirror_bb(y) == mirror_bb(x | y),
{
    let mx = mirror_bb(x);
    let my = mirror_bb(y);
    let z = x | y;
    let mz = mirror_bb(z);
    assert(mx | my == mz) by (bit_vector)
        requires
            mx == ((x & 0xff) << 56u64) | ((x & 0xff00) << 40u64) | ((x & 0xff0000) << 24u64) | ((x
                & 0xff000000) << 8u64) | ((x >> 8u64) & 0xff000000) | ((x >> 24u64) & 0xff0000) | ((
            x >> 40u64) & 0xff00) | (x >> 56u64),
            my == ((y & 0xff) << 56u64) | ((y & 0xff00) << 40u64) | ((y & 0xff0000) << 24u64) | ((y
                & 0xff000000) << 8u64) | ((y >> 8u64) & 0xff000000) | ((y >> 24u64) & 0xff0000) | ((
            y >> 40u64) & 0xff00) | (y >> 56u64),
            mz == ((z & 0xff) << 56u64) | ((z & 0xff00) << 40u64) | ((z & 0xff0000) << 24u64) | ((z
                & 0xff000000) << 8u64) | ((z >> 8u64) & 0xff000000) | ((z >> 24u64) & 0xff0000) | ((
            z >> 40u64) & 0xff00) | (z >> 56u64),
            z == x | y,
    ;
}

/// Disjoint bitboards share no square.
proof fn lemma_disjoint_bit(x: u64, y: u64, s: u64)
    requires
        x & y == 0,
        s < 64,
    ensures
        !(has_bit(x, s as int) && has_bit(y, s as int)),
{
    assert(!((x >> s) & 1u64 == 1u64 && (y >> s) & 1u64 == 1u64)) by (bit_vector)
        requires
            x & y == 0,
            s < 64,
    ;
}

/// 1 when bit `s` of `x` is set, else 0.
spec fn bit1(x: u64, s: int) -> int {
    if has_bit(x, s) {
        1
    } else {
        0
    }
}

/// Number of set bits on rank `k`.
spec fn rank_pop(x: u64, k: int) -> int {
    bit1(x, 8 * k) + bit1(x, 8 * k + 1) + bit1(x, 8 * k + 2) + bit1(x, 8 * k + 3) + bit1(
        x,
        8 * k + 4,
    ) + bit1(x, 8 * k + 5) + bit1(x, 8 * k + 6) + bit1(x, 8 * k + 7)
}

proof fn lemma_pop_band(x: u64, k: int)
    requires
        0 <= k < 8,
    ensures
        pop_spec(x, 8 * k + 8) == pop_spec(x, 8 * k) + rank_pop(x, k),
{
    reveal_with_fuel(pop_spec, 9);
}

proof fn lemma_pop_is_rank_sum(x: u64)
    ensures
        pop_spec(x, 64) == rank_pop(x, 0) + rank_pop(x, 1) + rank_pop(x, 2) + rank_pop(x, 3)
            + rank_pop(x, 4) + rank_pop(x, 5) + rank_pop(x, 6) + rank_pop(x, 7),
{
    lemma_pop_band(x, 0);
    lemma_pop_band(x, 1);
    lemma_pop_band(x, 2);
    lemma_pop_band(x, 3);
    lemma_pop_band(x, 4);
    lemma_pop_band(x, 5);
    lemma_pop_band(x, 6);
    lemma_pop_band(x, 7);
    assert(pop_spec(x, 0) == 0);
}

proof fn lemma_rank_pop_mirror(x: u64, k: int)
    requires
        0 <= k < 8,
    ensures
        rank_pop(mirror_bb(x), k) == rank_pop(x, 7 - k),
{
    lemma_mirror_bit(x, k as u64, 0);
    lemma_mirror_bit(x, k as u64, 1);
    lemma_mirror_bit(x, k as u64, 2);
    lemma_mirror_bit(x, k as u64, 3);
    lemma_mirror_bit(x, k as u64, 4);
    lemma_mirror_bit(x, k as u64, 5);
    lemma_mirror_bit(x, k as u64, 6);
    lemma_mirror_bit(x, k as u64, 7);
}

/// The vertical flip does not change how many bits are set.
pub proof fn lemma_mirror_pop(x: u64)
    ensures
        pop_spec(mirror_bb(x), 64) == pop_spec(x, 64),
{
    lemma_pop_is_rank_sum(x);
    lemma_pop_is_rank_sum(mirror_bb(x));
    lemma_rank_pop_mirror(x, 0);
    lemma_rank_pop_mirror(x, 1);
    lemma_rank_pop_mirror(x, 2);
    lemma_rank_pop_mirror(x, 3);
    lemma_rank_pop_mirror(x, 4);
    lemma_rank_pop_mirror(x, 5);
    lemma_rank_pop_mirror(x, 6);
    lemma_rank_pop_mirror(x, 7);
}

proof fn lemma_coords(k: int, f: int)
    requires
        0 <= k < 8,
        0 <= f < 8,
    ensures
        rank_of(8 * k + f) == k,
        file_of(8 * k + f) == f,
{
    assert((8 * k + f) / 8 == k) by (nonlinear_arith)
        requires
            0 <= k < 8,
            0 <= f < 8,
    ;
    assert((8 * k + f) % 8 == f) by (nonlinear_arith)
        requires
            0 <= k < 8,
            0 <= f < 8,
    ;
}

/// The adjacent-files mask is unchanged by the vertical flip.
proof fn lemma_mirror_adjacent(f: int)
    ensures
        mirror_bb(adjacent_files_mask(f)) == adjacent_files_mask(f),
{
    lemma_mirror_file_mask(f - 1);
    lemma_mirror_file_mask(f + 1);
    lemma_mirror_or(file_mask(f - 1), file_mask(f + 1));
}

proof fn lemma_shield_mirror(b: BoardData, w: bool, ff: int)
    ensures
        shield_pawn(mirror_board(b), !w, ff) == shield_pawn(b, w, ff),
{
    let z = b.pawns & own_bb(b, w);
    lemma_mirror_and(b.pawns, own_bb(b, w));
    if 0 <= ff < 8 {
        lemma_mirror_bit(z, 1u64, ff as u64);
        lemma_mirror_bit(z, 6u64, ff as u64);
    }
}

/// The contribution of square `(k, f)` of the mirrored board is the
/// contribution of square `(7-k, f)` of the original: same piece seen
/// from the other color, same sign relative to the side to move.
pub proof fn lemma_piece_term_mirror(b: BoardData, phase: int, k: int, f: int)
    requires
        b.white & b.black == 0,
        0 <= k < 8,
        0 <= f < 8,
        0 <= phase <= 256,
    ensures
        piece_term(mirror_board(b), phase, 8 * k + f) == piece_term(b, phase, 8 * (7 - k) + f),
{
    let bm = mirror_board(b);
    let sq = 8 * k + f;
    let tq = 8 * (7 - k) + f;
    lemma_coords(k, f);
    lemma_coords(7 - k, f);
    lemma_mirror_bit(b.white, k as u64, f as u64);
    lemma_mirror_bit(b.black, k as u64, f as u64);
    lemma_mirror_bit(b.pawns, k as u64, f as u64);
    lemma_mirror_bit(b.knights, k as u64, f as u64);
    lemma_mirror_bit(b.bishops, k as u64, f as u64);
    lemma_mirror_bit(b.rooks, k as u64, f as u64);
    lemma_mirror_bit(b.queens, k as u64, f as u64);
    lemma_mirror_bit(b.kings, k as u64, f as u64);
    assert(bm.role_at(sq) == b.role_at(tq));
    assert(bm.occupied(sq) == b.occupied(tq));
    let role = b.role_at(tq);
    if b.occupied(tq) && role != 0 {
        lemma_disjoint_bit(b.white, b.black, tq as u64);
        let w = b.is_white_at(tq);
        let wm = bm.is_white_at(sq);
        assert(wm == !w);
        assert(rel_rank(wm, rank_of(sq)) == rel_rank(w, rank_of(tq)));
        assert(pst_value(role, wm, sq, phase) == pst_value(role, w, tq, phase));
        assert(own_bb(bm, wm) == mirror_bb(own_bb(b, w)));
        assert(enemy_bb(bm, wm) == mirror_bb(enemy_bb(b, w)));
        if role == 4 {
            lemma_mirror_file_mask(f);
            lemma_mirror_and(b.pawns, file_mask(f));
            lemma_mirror_zero(b.pawns & file_mask(f));
        } else if role == 2 {
            lemma_mirror_adjacent(f);
            let z = b.pawns & own_bb(b, w);
            lemma_mirror_and(b.pawns, own_bb(b, w));
            lemma_mirror_and(z, adjacent_files_mask(f));
            lemma_mirror_zero(z & adjacent_files_mask(f));
        } else if role == 6 {
            lemma_shield_mirror(b, w, f - 1);
            lemma_shield_mirror(b, w, f);
            lemma_shield_mirror(b, w, f + 1);
        } else if role == 1 {
            let my = b.pawns & own_bb(b, w);
            let enemy = b.pawns & enemy_bb(b, w);
            lemma_mirror_and(b.pawns, own_bb(b, w));
            lemma_mirror_and(b.pawns, enemy_bb(b, w));
            lemma_mirror_file_mask(f);
            lemma_mirror_adjacent(f);
            lemma_mirror_and(my, file_mask(f));
            lemma_mirror_pop(my & file_mask(f));
            lemma_mirror_and(my, adjacent_files_mask(f));
            lemma_mirror_zero(my & adjacent_files_mask(f));
            lemma_mirror_or(file_mask(f), adjacent_files_mask(f));
            lemma_mirror_ahead(w, 7 - k);
            let reach = file_mask(f) | adjacent_files_mask(f);
            lemma_mirror_and(enemy, reach);
            lemma_mirror_and(enemy & reach, ahead_mask(w, 7 - k));
            lemma_mirror_zero(enemy & reach & ahead_mask(w, 7 - k));
        }
    }
}

/// Sum of the contributions of one rank.
spec fn rank_sum(b: BoardData, phase: int, k: int) -> int {
    piece_term(b, phase, 8 * k) + piece_term(b, phase, 8 * k + 1) + piece_term(b, phase, 8 * k + 2)
        + piece_term(b, phase, 8 * k + 3) + piece_term(b, phase, 8 * k + 4) + piece_term(
        b,
        phase,
        8 * k + 5,
    ) + piece_term(b, phase, 8 * k + 6) + piece_term(b, phase, 8 * k + 7)
}

proof fn lemma_sum_band(b: BoardData, phase: int, k: int)
    requires
        0 <= k < 8,
    ensures
        sum_terms(b, phase, 8 * k + 8) == sum_terms(b, phase, 8 * k) + rank_sum(b, phase, k),
{
    reveal_with_fuel(sum_terms, 9);
}

proof fn lemma_sum_is_rank_sums(b: BoardData, phase: int)
    ensures
        sum_terms(b, phase, 64) == rank_sum(b, phase, 0) + rank_sum(b, phase, 1) + rank_sum(
            b,
            phase,
            2,
        ) + rank_sum(b, phase, 3) + rank_sum(b, phase, 4) + rank_sum(b, phase, 5) + rank_sum(
            b,
            phase,
            6,
        ) + rank_sum(b, phase, 7),
{
    lemma_sum_band(b, phase, 0);
    lemma_sum_band(b, phase, 1);
    lemma_sum_band(b, phase, 2);
    lemma_sum_band(b, phase, 3);
    lemma_sum_band(b, phase, 4);
    lemma_sum_band(b, phase, 5);
    lemma_sum_band(b, phase, 6);
    lemma_sum_band(b, phase, 7);
    assert(sum_terms(b, phase, 0) == 0);
}

proof fn lemma_rank_sum_mirror(b: BoardData, phase: int, k: int)
    requires
        b.white & b.black == 0,
        0 <= k < 8,
        0 <= phase <= 256,
    ensures
        rank_sum(mirror_board(b), phase, k) == rank_sum(b, phase, 7 - k),
{
    lemma_piece_term_mirror(b, phase, k, 0);
    lemma_piece_term_mirror(b, phase, k, 1);
    lemma_piece_term_mirror(b, phase, k, 2);
    lemma_piece_term_mirror(b, phase, k, 3);
    lemma_piece_term_mirror(b, phase, k, 4);
    lemma_piece_term_mirror(b, phase, k, 5);
    lemma_piece_term_mirror(b, phase, k, 6);
    lemma_piece_term_mirror(b, phase, k, 7);
}

/// The game phase of the mirrored board is the phase of the original:
/// it counts pieces, and the flip moves them without loss.
pub proof fn lemma_phase_mirror(b: BoardData)
    ensures
        phase_of(mirror_board(b)) == phase_of(b),
{
    lemma_mirror_pop(b.knights);
    lemma_mirror_pop(b.bishops);
    lemma_mirror_pop(b.rooks);
    lemma_mirror_pop(b.queens);
}

/// Color symmetry of the evaluation: a position mirrored — colors
/// swapped, board flipped vertically, side to move reversed — has
/// exactly the score of the original for its own side to move, for
/// any mobility count shared by the two (a mirrored position has the
/// mirrored legal moves).  The two color bitboards must be disjoint,
/// as they are on every real board.
pub proof fn lemma_evaluate_symmetric(b: BoardData, mob: int)
    requires
        b.white & b.black == 0,
    ensures
        eval_spec(mirror_board(b), mob) == eval_spec(b, mob),
{
    let bm = mirror_board(b);
    lemma_phase_mirror(b);
    let phase = phase_of(b);
    crate::evaluation::lemma_phase_bounds(b);
    lemma_sum_is_rank_sums(b, phase);
    lemma_sum_is_rank_sums(bm, phase);
    lemma_rank_sum_mirror(b, phase, 0);
    lemma_rank_sum_mirror(b, phase, 1);
    lemma_rank_sum_mirror(b, phase, 2);
    lemma_rank_sum_mirror(b, phase, 3);
    lemma_rank_sum_mirror(b, phase, 4);
    lemma_rank_sum_mirror(b, phase, 5);
    lemma_rank_sum_mirror(b, phase, 6);
    lemma_rank_sum_mirror(b, phase, 7);
    lemma_mirror_and(b.bishops, b.white);
    lemma_mirror_and(b.bishops, b.black);
    lemma_mirror_pop(b.bishops & b.white);
    lemma_mirror_pop(b.bishops & b.black);
    assert(bishop_pair_term(bm) == bishop_pair_term(b));
}

/// The same law for the score the executable evaluator returns: the
/// clamped static score of the mirrored board equals the original's.
pub proof fn lemma_clamped_score_symmetric(b: BoardData, mob: int)
    requires
        b.white & b.black == 0,
    ensures
        clamp_score(eval_spec(mirror_board(b), mob)) == clamp_score(eval_spec(b, mob)),
{
    lemma_evaluate_symmetric(b, mob);
}

} // verus!
