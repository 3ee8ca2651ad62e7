//! Plain-value model of a chess board position.
//!
//! The engine reads a position through bitboards: one 64-bit word per
//! color and per piece role, bit `sq` standing for square `sq` (a1 = 0,
//! h8 = 63).  `BoardData` gathers what the evaluator needs; it is filled
//! from the rules library and every computation on it is verified.

use vstd::prelude::*;

verus! {

/// The board as the evaluator sees it: occupancy by color and by role,
/// and the side to move.
pub struct BoardData {
    pub white: u64,
    pub black: u64,
    pub pawns: u64,
    pub knights: u64,
    pub bishops: u64,
    pub rooks: u64,
    pub queens: u64,
    pub kings: u64,
    pub white_to_move: bool,
}

/// Whether bit `sq` of `bb` is set; false outside 0..64.
pub open spec fn has_bit(bb: u64, sq: int) -> bool {
    0 <= sq < 64 && (bb >> (sq as u64)) & 1u64 == 1u64
}

pub open spec fn file_of(sq: int) -> int {
    sq % 8
}

pub open spec fn rank_of(sq: int) -> int {
    sq / 8
}

/// All eight squares of file `f`; zero outside 0..8.
pub open spec fn file_mask(f: int) -> u64 {
    if 0 <= f < 8 {
        0x0101010101010101u64 << (f as u64)
    } else {
        0u64
    }
}

/// The two neighbouring files of file `f` (one at the board's edge).
pub open spec fn adjacent_files_mask(f: int) -> u64 {
    file_mask(f - 1) | file_mask(f + 1)
}

/// Every square on a rank strictly ahead of rank `r`, in the direction
/// of travel of a pawn of the given color.
pub open spec fn ahead_mask(white: bool, r: int) -> u64 {
    if 0 <= r < 8 {
        if white {
            if r == 7 {
                0u64
            } else {
                0xffffffffffffffffu64 << ((8 * (r + 1)) as u64)
            }
        } else {
            if r == 0 {
                0u64
            } else {
                ((1u64 << ((8 * r) as u64)) - 1) as u64
            }
        }
    } else {
        0u64
    }
}

/// Number of set bits among the `n` lowest bits of `bb`.
pub open spec fn pop_spec(bb: u64, n: int) -> int
    decreases n,
{
    if n <= 0 {
        0
    } else {
        pop_spec(bb, n - 1) + if has_bit(bb, n - 1) {
            1int
        } else {
            0int
        }
    }
}

pub proof fn lemma_pop_spec_bounds(bb: u64, n: int)
    requires
        0 <= n,
    ensures
        0 <= pop_spec(bb, n) <= n,
    decreases n,
{
    if n > 0 {
        lemma_pop_spec_bounds(bb, n - 1);
    }
}

impl BoardData {
    /// A square is occupied when either color's bitboard holds it.
    pub open spec fn occupied(self, sq: int) -> bool {
        has_bit(self.white, sq) || has_bit(self.black, sq)
    }

    /// The piece on `sq` belongs to White.  (On a well-formed board the
    /// two color bitboards are disjoint; White takes precedence here so
    /// that the function is total.)
    pub open spec fn is_white_at(self, sq: int) -> bool {
        has_bit(self.white, sq)
    }

    /// Role on `sq`: 1 pawn, 2 knight, 3 bishop, 4 rook, 5 queen,
    /// 6 king, 0 none.  On a well-formed board the role bitboards are
    /// disjoint; the first match decides so that the function is total.
    pub open spec fn role_at(self, sq: int) -> int {
        if has_bit(self.pawns, sq) {
            1
        } else if has_bit(self.knights, sq) {
            2
        } else if has_bit(self.bishops, sq) {
            3
        } else if has_bit(self.rooks, sq) {
            4
        } else if has_bit(self.queens, sq) {
            5
        } else if has_bit(self.kings, sq) {
            6
        } else {
            0
        }
    }
}

/// Test bit `sq` of `bb`.
pub fn test_bit(bb: u64, sq: u8) -> (r: bool)
    requires
        sq < 64,
    ensures
        r == has_bit(bb, sq as int),
{
    (bb >> (sq as u64)) & 1u64 == 1u64
}

/// Bitboard of file `f`.
pub fn file_mask_ex(f: u8) -> (r: u64)
    ensures
        r == file_mask(f as int),
{
    if f < 8 {
        0x0101010101010101u64 << (f as u64)
    } else {
        0u64
    }
}

/// Bitboard of the files adjacent to file `f`.
pub fn adjacent_files_mask_ex(f: u8) -> (r: u64)
    requires
        f < 8,
    ensures
        r == adjacent_files_mask(f as int),
{
    let left: u64 = if f == 0 {
        0u64
    } else {
        file_mask_ex(f - 1)
    };
    let right: u64 = if f >= 7 {
        0u64
    } else {
        file_mask_ex(f + 1)
    };
    assert(f == 0 ==> file_mask(f as int - 1) == 0u64);
    assert(f >= 7 ==> file_mask(f as int + 1) == 0u64);
    left | right
}

/// Bitboard of the ranks strictly ahead of rank `r` for the given color.
pub fn ahead_mask_ex(white: bool, r: u8) -> (m: u64)
    requires
        r < 8,
    ensures
        m == ahead_mask(white, r as int),
{
    if white {
        if r == 7 {
            0u64
        } else {
            0xffffffffffffffffu64 << (8u64 * (r as u64 + 1))
        }
    } else {
        if r == 0 {
            0u64
        } else {
            let s: u64 = 8u64 * (r as u64);
            assert(1u64 << s >= 1u64) by (bit_vector)
                requires
                    8 <= s < 64,
            ;
            (1u64 << s) - 1
        }
    }
}

/// The given side owns at least one piece besides pawns and king.
pub open spec fn non_pawn_material(b: BoardData, white: bool) -> bool {
    (if white {
        b.white
    } else {
        b.black
    }) & !b.pawns & !b.kings != 0
}

/// Whether the given side still owns a knight, bishop, rook or queen.
/// Null-move pruning is tried only then: with bare king and pawns the
/// side may be in zugzwang, where passing is better than any move.
pub fn has_non_pawn_material(b: &BoardData, white: bool) -> (r: bool)
    ensures
        r == non_pawn_material(*b, white),
{
    let side: u64 = if white {
        b.white
    } else {
        b.black
    };
    side & !b.pawns & !b.kings != 0
}

/// Number of set bits of `bb`.
pub fn popcount(bb: u64) -> (n: u32)
    ensures
        n == pop_spec(bb, 64),
        n <= 64,
{
    let mut n: u32 = 0;
    let mut sq: u8 = 0;
    while sq < 64
        invariant
            sq <= 64,
            n == pop_spec(bb, sq as int),
            n <= sq,
        decreases 64 - sq,
    {
        if test_bit(bb, sq) {
            n = n + 1;
        }
        sq = sq + 1;
    }
    n
}

} // verus!
