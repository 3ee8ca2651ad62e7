//! Static evaluation of a position, in centipawns from the viewpoint of
//! the side to move.
//!
//! The score of a non-terminal position is a sum over the occupied
//! squares of material, a phase-interpolated piece-square bonus and
//! structural terms (rook activity, knight outposts, king shield, pawn
//! structure), plus board-level bishop-pair and mobility terms.  The
//! whole computation is verified against `eval_spec`; the rules library
//! only supplies the raw bitboards.

use vstd::prelude::*;
use crate::board::{
    BoardData, has_bit, file_of, rank_of, file_mask, adjacent_files_mask, ahead_mask, pop_spec,
    test_bit, file_mask_ex, adjacent_files_mask_ex, ahead_mask_ex, popcount,
    lemma_pop_spec_bounds,
};
use shakmaty::Chess;
use crate::rules::{board_data, position_is_game_over, position_is_checkmate, legal_moves_of};

verus! {

/// Material value by role index (1 pawn .. 6 king).
pub open spec fn material(role: int) -> int {
    if role == 1 {
        100
    } else if role == 2 {
        320
    } else if role == 3 {
        330
    } else if role == 4 {
        500
    } else if role == 5 {
        900
    } else if role == 6 {
        20000
    } else {
        0
    }
}

/// Rank of a square as seen by its own side: 0 is the back rank.
pub open spec fn rel_rank(white: bool, r: int) -> int {
    if white {
        r
    } else {
        7 - r
    }
}

pub open spec fn file_dist(f: int) -> int {
    if f <= 7 - f {
        f
    } else {
        7 - f
    }
}

pub open spec fn rank_dist(r: int) -> int {
    if r <= 7 - r {
        r
    } else {
        7 - r
    }
}

/// Middlegame pawn bonus: advancement, with a bump for the four
/// central squares.
pub open spec fn pawn_mg_pst(rr: int, f: int) -> int {
    if 1 <= rr <= 6 {
        5 * (rr - 1) + if (f == 3 || f == 4) && (rr == 3 || rr == 4) {
            10int
        } else {
            0int
        }
    } else {
        0
    }
}

/// Endgame pawn bonus: advancement alone, weighted more heavily.
pub open spec fn pawn_eg_pst(rr: int) -> int {
    if 1 <= rr <= 6 {
        10 * (rr - 1)
    } else {
        0
    }
}

pub open spec fn knight_pst(f: int, r: int) -> int {
    -30 + 8 * (file_dist(f) + rank_dist(r))
}

pub open spec fn bishop_pst(f: int, r: int) -> int {
    -10 + 4 * (file_dist(f) + rank_dist(r))
}

pub open spec fn rook_pst(f: int) -> int {
    2 * file_dist(f)
}

pub open spec fn queen_pst(f: int, r: int) -> int {
    file_dist(f) + rank_dist(r)
}

/// Middlegame king bonus: stay on the back rank, towards a corner.
pub open spec fn king_mg_pst(rr: int, f: int) -> int {
    (if rr == 0 {
        10int
    } else {
        -10 * (if rr <= 4 {
            rr
        } else {
            4int
        })
    }) + (if file_dist(f) <= 1 {
        10int
    } else {
        -5 * (file_dist(f) - 1)
    })
}

/// Endgame king bonus: centralisation.
pub open spec fn king_eg_pst(f: int, r: int) -> int {
    -24 + 6 * (file_dist(f) + rank_dist(r))
}

pub open spec fn pst_mg(role: int, rr: int, f: int, r: int) -> int {
    if role == 1 {
        pawn_mg_pst(rr, f)
    } else if role == 2 {
        knight_pst(f, r)
    } else if role == 3 {
        bishop_pst(f, r)
    } else if role == 4 {
        rook_pst(f)
    } else if role == 5 {
        queen_pst(f, r)
    } else if role == 6 {
        king_mg_pst(rr, f)
    } else {
        0
    }
}

/// The knight, bishop, rook and queen tables do not distinguish phases.
pub open spec fn pst_eg(role: int, rr: int, f: int, r: int) -> int {
    if role == 1 {
        pawn_eg_pst(rr)
    } else if role == 6 {
        king_eg_pst(f, r)
    } else {
        pst_mg(role, rr, f, r)
    }
}

/// Linear interpolation between a middlegame and an endgame value,
/// `phase` running from 0 (middlegame) to 256 (endgame).  The offset of
/// 50 keeps the numerator non-negative, so that integer division is
/// exact truncation towards zero.
pub open spec fn interp(mg: int, eg: int, phase: int) -> int {
    ((mg + 50) * (256 - phase) + (eg + 50) * phase) / 256 - 50
}

pub proof fn lemma_interp_bounds(mg: int, eg: int, phase: int)
    requires
        -50 <= mg <= 60,
        -50 <= eg <= 60,
        0 <= phase <= 256,
    ensures
        -50 <= interp(mg, eg, phase) <= 60,
{
    assert(0 <= (mg + 50) * (256 - phase) + (eg + 50) * phase <= 110 * 256) by (nonlinear_arith)
        requires
            -50 <= mg <= 60,
            -50 <= eg <= 60,
            0 <= phase <= 256,
    ;
    let n = (mg + 50) * (256 - phase) + (eg + 50) * phase;
    assert(0 <= n / 256 <= 110);
}

/// Phase-interpolated piece-square value of a piece of the given role
/// and color on square `sq`.  Black reads the tables after vertical
/// mirroring, through `rel_rank`.
pub open spec fn pst_value(role: int, white: bool, sq: int, phase: int) -> int {
    let f = file_of(sq);
    let r = rank_of(sq);
    let rr = rel_rank(white, r);
    interp(pst_mg(role, rr, f, r), pst_eg(role, rr, f, r), phase)
}

pub proof fn lemma_pst_table_bounds(role: int, rr: int, f: int, r: int)
    requires
        0 <= rr <= 7,
        0 <= f <= 7,
        0 <= r <= 7,
    ensures
        -50 <= pst_mg(role, rr, f, r) <= 60,
        -50 <= pst_eg(role, rr, f, r) <= 60,
{
}

pub proof fn lemma_pst_value_bounds(role: int, white: bool, sq: int, phase: int)
    requires
        0 <= sq < 64,
        0 <= phase <= 256,
    ensures
        -50 <= pst_value(role, white, sq, phase) <= 60,
{
    let f = file_of(sq);
    let r = rank_of(sq);
    let rr = rel_rank(white, r);
    lemma_pst_table_bounds(role, rr, f, r);
    lemma_interp_bounds(pst_mg(role, rr, f, r), pst_eg(role, rr, f, r), phase);
}

/// Game-phase scalar in 0..=256 (0 pure middlegame, 256 pure endgame),
/// from the non-pawn material left on the board.
pub open spec fn phase_of(b: BoardData) -> int {
    let counts = pop_spec(b.knights, 64) + pop_spec(b.bishops, 64) + 2 * pop_spec(b.rooks, 64) + 4
        * pop_spec(b.queens, 64);
    let raw = 24 - counts;
    let clamped = if raw < 0 {
        0int
    } else if raw > 24 {
        24int
    } else {
        raw
    };
    (clamped * 256 + 12) / 24
}

pub proof fn lemma_phase_bounds(b: BoardData)
    ensures
        0 <= phase_of(b) <= 256,
{
    let counts = pop_spec(b.knights, 64) + pop_spec(b.bishops, 64) + 2 * pop_spec(b.rooks, 64) + 4
        * pop_spec(b.queens, 64);
    let raw = 24 - counts;
    let clamped = if raw < 0 {
        0int
    } else if raw > 24 {
        24int
    } else {
        raw
    };
    assert(0 <= clamped <= 24);
    assert(0 <= (clamped * 256 + 12) / 24 <= 256) by (nonlinear_arith)
        requires
            0 <= clamped <= 24,
    ;
}

/// Bonus for a passed pawn, by relative rank.
pub open spec fn passed_bonus(rr: int) -> int {
    if rr == 1 {
        5
    } else if rr == 2 {
        10
    } else if rr == 3 {
        20
    } else if rr == 4 {
        35
    } else if rr == 5 {
        60
    } else if rr == 6 {
        100
    } else {
        0
    }
}

pub open spec fn own_bb(b: BoardData, white: bool) -> u64 {
    if white {
        b.white
    } else {
        b.black
    }
}

pub open spec fn enemy_bb(b: BoardData, white: bool) -> u64 {
    if white {
        b.black
    } else {
        b.white
    }
}

/// Rook bonuses: an open file (no pawns of either color) and the
/// seventh rank relative to the rook's own side.
pub open spec fn rook_positional(b: BoardData, sq: int, white: bool) -> int {
    (if b.pawns & file_mask(file_of(sq)) == 0 {
        25int
    } else {
        0int
    }) + (if rel_rank(white, rank_of(sq)) == 6 {
        20int
    } else {
        0int
    })
}

/// Knight outpost: a knight on a central file, advanced into the
/// opponent's half and defended by an own pawn on an adjacent file.
pub open spec fn knight_positional(b: BoardData, sq: int, white: bool) -> int {
    let f = file_of(sq);
    let r = rank_of(sq);
    if 2 <= f <= 5 && (if white {
        r >= 3
    } else {
        r <= 4
    }) && (b.pawns & own_bb(b, white) & adjacent_files_mask(f)) != 0 {
        15
    } else {
        0
    }
}

/// 1 when an own pawn stands on the shield rank of file `f`, else 0.
pub open spec fn shield_pawn(b: BoardData, white: bool, f: int) -> int {
    let sr: int = if white {
        1
    } else {
        6
    };
    if 0 <= f < 8 && has_bit(b.pawns & own_bb(b, white), sr * 8 + f) {
        1
    } else {
        0
    }
}

/// Own pawns on the second rank (relative) within the three files
/// centered on the king's file.
pub open spec fn shield_count(b: BoardData, white: bool, f: int) -> int {
    shield_pawn(b, white, f - 1) + shield_pawn(b, white, f) + shield_pawn(b, white, f + 1)
}

/// King shield bonus, only while the game is still middlegame-like.
pub open spec fn king_positional(b: BoardData, phase: int, sq: int, white: bool) -> int {
    if phase < 128 {
        10 * shield_count(b, white, file_of(sq))
    } else {
        0
    }
}

/// Pawn-structure terms: doubled and isolated penalties, passed bonus.
pub open spec fn pawn_positional(b: BoardData, sq: int, white: bool) -> int {
    let f = file_of(sq);
    let r = rank_of(sq);
    let my = b.pawns & own_bb(b, white);
    let enemy = b.pawns & enemy_bb(b, white);
    (if pop_spec(my & file_mask(f), 64) > 1 {
        -15int
    } else {
        0int
    }) + (if my & adjacent_files_mask(f) == 0 {
        -12int
    } else {
        0int
    }) + (if enemy & (file_mask(f) | adjacent_files_mask(f)) & ahead_mask(white, r) == 0 {
        passed_bonus(rel_rank(white, r))
    } else {
        0int
    })
}

pub open spec fn positional(b: BoardData, phase: int, sq: int, role: int, white: bool) -> int {
    if role == 1 {
        pawn_positional(b, sq, white)
    } else if role == 2 {
        knight_positional(b, sq, white)
    } else if role == 4 {
        rook_positional(b, sq, white)
    } else if role == 6 {
        king_positional(b, phase, sq, white)
    } else {
        0
    }
}

/// Signed contribution of square `sq`: the piece's full value, positive
/// when its color is the side to move.
pub open spec fn piece_term(b: BoardData, phase: int, sq: int) -> int {
    let role = b.role_at(sq);
    if b.occupied(sq) && role != 0 {
        let white = b.is_white_at(sq);
        let v = material(role) + pst_value(role, white, sq, phase) + positional(
            b,
            phase,
            sq,
            role,
            white,
        );
        if white == b.white_to_move {
            v
        } else {
            -v
        }
    } else {
        0
    }
}

pub proof fn lemma_piece_term_bounds(b: BoardData, phase: int, sq: int)
    requires
        0 <= sq < 64,
        0 <= phase <= 256,
    ensures
        -20500 <= piece_term(b, phase, sq) <= 20500,
{
    let role = b.role_at(sq);
    if b.occupied(sq) && role != 0 {
        let white = b.is_white_at(sq);
        lemma_pst_value_bounds(role, white, sq, phase);
        let my = b.pawns & own_bb(b, white);
        lemma_pop_spec_bounds(my & file_mask(file_of(sq)), 64);
    }
}

/// Sum of the contributions of the squares below `n`.
pub open spec fn sum_terms(b: BoardData, phase: int, n: int) -> int
    decreases n,
{
    if n <= 0 {
        0
    } else {
        sum_terms(b, phase, n - 1) + piece_term(b, phase, n - 1)
    }
}

/// Bishop pair: each side owning at least two bishops contributes 50,
/// signed from the side-to-move viewpoint.
pub open spec fn bishop_pair_term(b: BoardData) -> int {
    let wp: int = if pop_spec(b.bishops & b.white, 64) >= 2 {
        50
    } else {
        0
    };
    let bp: int = if pop_spec(b.bishops & b.black, 64) >= 2 {
        50
    } else {
        0
    };
    if b.white_to_move {
        wp - bp
    } else {
        bp - wp
    }
}

/// Mobility: half the number of legal moves of the side to move,
/// capped so that a corrupt count cannot dominate the score.
pub open spec fn mobility_term(mob: int) -> int {
    (if mob > 1000 {
        1000int
    } else {
        mob
    }) / 2
}

/// The full static score of a non-terminal position.
pub open spec fn eval_spec(b: BoardData, mob: int) -> int {
    sum_terms(b, phase_of(b), 64) + bishop_pair_term(b) + mobility_term(mob)
}

pub open spec fn clamp_score(x: int) -> int {
    if x < -29000 {
        -29000
    } else if x > 29000 {
        29000
    } else {
        x
    }
}

/// Evaluation is a pure function of the board data and the mobility
/// count: equal inputs always give the equal score, however often the
/// evaluator is called.
pub proof fn lemma_evaluate_pure(b1: BoardData, b2: BoardData, mob1: int, mob2: int)
    requires
        b1 == b2,
        mob1 == mob2,
    ensures
        eval_spec(b1, mob1) == eval_spec(b2, mob2),
{
}

fn interp_ex(mg: i32, eg: i32, phase: i32) -> (r: i32)
    requires
        -50 <= mg <= 60,
        -50 <= eg <= 60,
        0 <= phase <= 256,
    ensures
        r == interp(mg as int, eg as int, phase as int),
        -50 <= r <= 60,
{
    proof {
        lemma_interp_bounds(mg as int, eg as int, phase as int);
    }
    assert(0 <= (mg + 50) * (256 - phase) + (eg + 50) * phase <= 110 * 256) by (nonlinear_arith)
        requires
            -50 <= mg <= 60,
            -50 <= eg <= 60,
            0 <= phase <= 256,
    ;
    let n: u32 = ((mg + 50) * (256 - phase) + (eg + 50) * phase) as u32;
    (n / 256) as i32 - 50
}

fn file_dist_ex(f: u8) -> (r: u8)
    requires
        f < 8,
    ensures
        r == file_dist(f as int),
        r <= 3,
{
    if f <= 7 - f {
        f
    } else {
        7 - f
    }
}

/// The middlegame king table value.
fn king_mg_ex(rr: u8, f: u8) -> (r: i32)
    requires
        rr < 8,
        f < 8,
    ensures
        r == king_mg_pst(rr as int, f as int),
        -50 <= r <= 20,
{
    let fd: i32 = file_dist_ex(f) as i32;
    let capped: i32 = if rr <= 4 {
        rr as i32
    } else {
        4
    };
    let rank_part: i32 = if rr == 0 {
        10
    } else {
        0 - 10 * capped
    };
    let file_part: i32 = if fd <= 1 {
        10
    } else {
        0 - 5 * (fd - 1)
    };
    rank_part + file_part
}

/// The piece-square value of a piece, interpolated by phase.
fn pst_value_ex(role: u8, white: bool, sq: u8, phase: i32) -> (r: i32)
    requires
        sq < 64,
        0 <= phase <= 256,
    ensures
        r == pst_value(role as int, white, sq as int, phase as int),
        -50 <= r <= 60,
{
    let f: u8 = sq % 8;
    let rk: u8 = sq / 8;
    let rr: u8 = if white {
        rk
    } else {
        7 - rk
    };
    let fd: i32 = file_dist_ex(f) as i32;
    let rd: i32 = if rk <= 7 - rk {
        rk as i32
    } else {
        (7 - rk) as i32
    };
    let mg: i32 = if role == 1 {
        if 1 <= rr && rr <= 6 {
            5 * (rr as i32 - 1) + if (f == 3 || f == 4) && (rr == 3 || rr == 4) {
                10
            } else {
                0
            }
        } else {
            0
        }
    } else if role == 2 {
        -30 + 8 * (fd + rd)
    } else if role == 3 {
        -10 + 4 * (fd + rd)
    } else if role == 4 {
        2 * fd
    } else if role == 5 {
        fd + rd
    } else if role == 6 {
        king_mg_ex(rr, f)
    } else {
        0
    };
    let eg: i32 = if role == 1 {
        if 1 <= rr && rr <= 6 {
            10 * (rr as i32 - 1)
        } else {
            0
        }
    } else if role == 6 {
        -24 + 6 * (fd + rd)
    } else {
        mg
    };
    assert(mg == pst_mg(role as int, rr as int, f as int, rk as int));
    assert(eg == pst_eg(role as int, rr as int, f as int, rk as int));
    interp_ex(mg, eg, phase)
}

/// The game-phase scalar of the board, 0 to 256.
pub fn phase_ex(b: &BoardData) -> (r: i32)
    ensures
        r == phase_of(*b),
        0 <= r <= 256,
{
    let nk = popcount(b.knights);
    let nb = popcount(b.bishops);
    let nr = popcount(b.rooks);
    let nq = popcount(b.queens);
    let counts: u32 = nk + nb + 2 * nr + 4 * nq;
    let raw: i32 = 24 - counts as i32;
    let clamped: u32 = if raw < 0 {
        0
    } else if raw > 24 {
        24
    } else {
        raw as u32
    };
    proof {
        lemma_phase_bounds(*b);
    }
    ((clamped * 256 + 12) / 24) as i32
}

/// The signed contribution of one square to the score.
fn piece_term_ex(b: &BoardData, phase: i32, sq: u8) -> (r: i32)
    requires
        sq < 64,
        0 <= phase <= 256,
    ensures
        r == piece_term(*b, phase as int, sq as int),
        -20500 <= r <= 20500,
{
    proof {
        lemma_piece_term_bounds(*b, phase as int, sq as int);
    }
    let occupied = test_bit(b.white, sq) || test_bit(b.black, sq);
    let role: u8 = if test_bit(b.pawns, sq) {
        1
    } else if test_bit(b.knights, sq) {
        2
    } else if test_bit(b.bishops, sq) {
        3
    } else if test_bit(b.rooks, sq) {
        4
    } else if test_bit(b.queens, sq) {
        5
    } else if test_bit(b.kings, sq) {
        6
    } else {
        0
    };
    if !occupied || role == 0 {
        return 0;
    }
    let white = test_bit(b.white, sq);
    let f: u8 = sq % 8;
    let rk: u8 = sq / 8;
    let rr: u8 = if white {
        rk
    } else {
        7 - rk
    };
    let mat: i32 = if role == 1 {
        100
    } else if role == 2 {
        320
    } else if role == 3 {
        330
    } else if role == 4 {
        500
    } else if role == 5 {
        900
    } else {
        20000
    };
    let mut v: i32 = mat + pst_value_ex(role, white, sq, phase);
    let own: u64 = if white {
        b.white
    } else {
        b.black
    };
    let other: u64 = if white {
        b.black
    } else {
        b.white
    };
    if role == 4 {
        if b.pawns & file_mask_ex(f) == 0 {
            v = v + 25;
        }
        if rr == 6 {
            v = v + 20;
        }
    } else if role == 2 {
        let advanced = if white {
            rk >= 3
        } else {
            rk <= 4
        };
        if 2 <= f && f <= 5 && advanced && (b.pawns & own & adjacent_files_mask_ex(f)) != 0 {
            v = v + 15;
        }
    } else if role == 6 {
        if phase < 128 {
            let my_pawns: u64 = b.pawns & own;
            let sr: u8 = if white {
                1
            } else {
                6
            };
            let mut count: i32 = 0;
            if f >= 1 && test_bit(my_pawns, sr * 8 + (f - 1)) {
                count = count + 1;
            }
            if test_bit(my_pawns, sr * 8 + f) {
                count = count + 1;
            }
            if f < 7 && test_bit(my_pawns, sr * 8 + (f + 1)) {
                count = count + 1;
            }
            assert(count == shield_count(*b, white, f as int));
            v = v + 10 * count;
        }
    } else if role == 1 {
        let my_pawns: u64 = b.pawns & own;
        let enemy_pawns: u64 = b.pawns & other;
        let fm: u64 = file_mask_ex(f);
        let adj: u64 = adjacent_files_mask_ex(f);
        proof {
            lemma_pop_spec_bounds(my_pawns & fm, 64);
        }
        if popcount(my_pawns & fm) > 1 {
            v = v - 15;
        }
        if my_pawns & adj == 0 {
            v = v - 12;
        }
        if enemy_pawns & (fm | adj) & ahead_mask_ex(white, rk) == 0 {
            let bonus: i32 = if rr == 1 {
                5
            } else if rr == 2 {
                10
            } else if rr == 3 {
                20
            } else if rr == 4 {
                35
            } else if rr == 5 {
                60
            } else if rr == 6 {
                100
            } else {
                0
            };
            v = v + bonus;
        }
    }
    if white == b.white_to_move {
        v
    } else {
        -v
    }
}

/// The verified evaluator on the board model: the clamped static score.
pub fn eval_board(b: &BoardData, mobility: usize) -> (r: i32)
    ensures
        r == clamp_score(eval_spec(*b, mobility as int)),
        -29000 <= r <= 29000,
{
    let phase = phase_ex(b);
    let mut acc: i32 = 0;
    let mut sq: u8 = 0;
    while sq < 64
        invariant
            sq <= 64,
            0 <= phase <= 256,
            phase == phase_of(*b),
            acc == sum_terms(*b, phase as int, sq as int),
            -20500 * (sq as int) <= acc <= 20500 * (sq as int),
        decreases 64 - sq,
    {
        let t = piece_term_ex(b, phase, sq);
        acc = acc + t;
        sq = sq + 1;
    }
    proof {
        lemma_pop_spec_bounds(b.bishops & b.white, 64);
        lemma_pop_spec_bounds(b.bishops & b.black, 64);
    }
    let wb = popcount(b.bishops & b.white);
    let bb = popcount(b.bishops & b.black);
    let wp: i32 = if wb >= 2 {
        50
    } else {
        0
    };
    let bp: i32 = if bb >= 2 {
        50
    } else {
        0
    };
    let pair: i32 = if b.white_to_move {
        wp - bp
    } else {
        bp - wp
    };
    let mob: usize = if mobility > 1000 {
        1000
    } else {
        mobility
    };
    let total: i32 = acc + pair + (mob / 2) as i32;
    if total < -29000 {
        -29000
    } else if total > 29000 {
        29000
    } else {
        total
    }
}

/// Score of a terminal position, for the side to move: being
/// checkmated is the worst outcome, any other end is a draw.
pub fn terminal_score(checkmate: bool) -> (r: i32)
    ensures
        checkmate ==> r == -30000,
        !checkmate ==> r == 0,
{
    if checkmate {
        -30000
    } else {
        0
    }
}

/// Static score of a position from the side-to-move viewpoint:
/// -30000 on checkmate, 0 on any other finished game, otherwise the
/// verified board evaluation, strictly inside the mate range.
pub fn evaluate(pos: &Chess) -> (r: i32)
    ensures
        -30000 <= r <= 29000,
{
    if position_is_game_over(pos) {
        terminal_score(position_is_checkmate(pos))
    } else {
        let b = board_data(pos);
        let moves = legal_moves_of(pos);
        eval_board(&b, moves.len())
    }
}

} // verus!
