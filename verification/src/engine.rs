//! The search engine: negamax alpha-beta with a transposition table,
//! killer and history move ordering, null-move pruning, internal
//! iterative deepening, late move reductions, quiescence at the
//! horizon, and an iterative-deepening driver with aspiration windows.
//!
//! Scores are centipawns from the side-to-move viewpoint and always
//! lie in the closed window [-40000, 40000]; mate scores are
//! `30000 - ply` in magnitude, so shallower mates dominate deeper
//! ones.  The searches are fail-hard: quiescence returns a score
//! inside the caller's window.

use vstd::prelude::*;
use std::collections::HashMap;
use shakmaty::Chess;
use shakmaty::Move;
use crate::board::has_non_pawn_material;
use crate::evaluation::evaluate;
use crate::opening_book::{OpeningBook, has_startpos_entry};
use crate::ordering::{ScoredMove, lemma_moves_of_multiset, move_key, moves_of, sort_by_key};
use crate::rules::{
    board_data, legal_moves_of, move_from_sq, move_is_capture, move_is_promotion, move_to_sq,
    moves_equal, play_move, position_in_check, position_is_game_over, role_at_sq,
    side_to_move_is_white, try_swap_turn, uci_to_legal_move, zobrist_key,
};
use crate::tt::{NodeType, TTEntry};

verus! {

broadcast use vstd::std_specs::hash::group_hash_axioms, vstd::seq_lib::group_to_multiset_ensures;

/// Search scores stay strictly inside this bound's negation and value.
pub const SCORE_INF: i32 = 40000;

/// Plies from the root are capped; beyond the cap the static score
/// stands in for a deeper search.
pub const PLY_LIMIT: u32 = 100;

/// Capture chains explored by quiescence are capped; a chain cannot
/// exceed the number of pieces on the board.
pub const QUIESCENCE_FUEL: u32 = 32;

/// Score stored for a side that is mated `ply` plies from the root.
pub open spec fn mated_score(ply: int) -> int {
    -30000 + ply
}

/// Score the root sees for a forced mate delivered in `k` moves: the
/// mated side is `2k - 1` plies from the root when the mate lands.
pub open spec fn mate_in_score(k: int) -> int {
    30000 - (2 * k - 1)
}

/// Mate-distance ordering: a quicker mate always scores higher, so
/// the search prefers it.
pub proof fn lemma_mate_distance_ordering(k1: int, k2: int)
    requires
        1 <= k1 < k2,
    ensures
        mate_in_score(k1) > mate_in_score(k2),
{
}

/// The mated side's score grows with the distance to the mate: being
/// mated later is better than being mated sooner.
pub proof fn lemma_mated_score_monotonic(p1: int, p2: int)
    requires
        0 <= p1 < p2,
    ensures
        mated_score(p1) < mated_score(p2),
{
}

/// The terminal score of a side with no legal moves while in check.
pub fn mated_score_at(ply: u32) -> (r: i32)
    requires
        ply <= 100,
    ensures
        r == mated_score(ply as int),
        -30000 <= r <= -29900,
{
    -30000 + ply as i32
}

/// The engine's mutable search state: transposition table, killer
/// slots (two per depth), history counters and the opening book.
pub struct Engine {
    pub tt: HashMap<u64, TTEntry>,
    pub killers: Vec<Option<Move>>,
    pub history: Vec<u32>,
    pub book: OpeningBook,
}

/// Picks the move the driver hands back: the search's candidate when
/// it is one of the legal moves, else the first legal move; nothing
/// only when the position has no legal move at all.
pub fn choose_root_move(legals: &Vec<Move>, candidate: Option<Move>) -> (r: Option<Move>)
    ensures
        legals@.len() > 0 ==> r is Some,
        legals@.len() == 0 ==> r is None,
        r matches Some(m) ==> legals@.contains(m),
        (candidate matches Some(c) && legals@.contains(c)) ==> r == candidate,
{
    let n = legals.len();
    match &candidate {
        Some(c) => {
            let mut i: usize = 0;
            while i < n
                invariant
                    n == legals@.len(),
                    i <= n,
                    candidate matches Some(cc) && cc == *c,
                    forall|j: int| 0 <= j < i ==> legals@[j] != *c,
                decreases n - i,
            {
                if moves_equal(&legals[i], c) {
                    assert(legals@.contains(*c)) by {
                        assert(legals@[i as int] == *c);
                    }
                    return candidate;
                }
                i = i + 1;
            }
            assert(!legals@.contains(*c));
            if n > 0 {
                assert(legals@.contains(legals@[0])) by {
                    assert(legals@[0] == legals@[0]);
                }
                Some(legals[0])
            } else {
                None
            }
        },
        None => {
            if n > 0 {
                assert(legals@.contains(legals@[0])) by {
                    assert(legals@[0] == legals@[0]);
                }
                Some(legals[0])
            } else {
                None
            }
        },
    }
}

impl Engine {
    /// Search state well-formedness: the killer table has two slots
    /// for each of the 64 depths, the history table one counter per
    /// side, origin and destination square, and every cached score
    /// lies inside the score window.
    pub open spec fn wf(self) -> bool {
        &&& self.killers@.len() == 128
        &&& self.history@.len() == 8192
        &&& forall|k: u64| self.tt@.contains_key(k) ==> (#[trigger] self.tt@[k]).wf()
    }

    /// A fresh engine: empty transposition table, no killers, zeroed
    /// history, and the static opening book.
    pub fn new() -> (e: Engine)
        ensures
            e.wf(),
            e.tt@ == Map::<u64, TTEntry>::empty(),
            forall|i: int| 0 <= i < 128 ==> e.killers@[i] is None,
            forall|i: int| 0 <= i < 8192 ==> e.history@[i] == 0,
            has_startpos_entry(e.book),
    {
        let tt: HashMap<u64, TTEntry> = HashMap::with_capacity(2048 * 1024);
        let mut killers: Vec<Option<Move>> = Vec::new();
        let mut i: usize = 0;
        while i < 128
            invariant
                i <= 128,
                killers@.len() == i as int,
                forall|j: int| 0 <= j < i ==> killers@[j] is None,
            decreases 128 - i,
        {
            killers.push(None);
            i = i + 1;
        }
        let mut history: Vec<u32> = Vec::new();
        let mut j: usize = 0;
        while j < 8192
            invariant
                j <= 8192,
                history@.len() == j as int,
                forall|k: int| 0 <= k < j ==> history@[k] == 0,
            decreases 8192 - j,
        {
            history.push(0);
            j = j + 1;
        }
        Engine { tt, killers, history, book: OpeningBook::new() }
    }

    /// Sort keys for a list of legal moves of `pos` and return the
    /// list sorted best-first: hash move, captures by exchange
    /// estimate, killers, promotions, then quiet moves by history.
    fn order_moves(&self, pos: &Chess, moves: Vec<Move>, hash_move: &Option<Move>, depth: u32)
        -> (r: Vec<Move>)
        requires
            self.wf(),
        ensures
            r@.len() == moves@.len(),
            r@.to_multiset() == moves@.to_multiset(),
            forall|j: int| 0 <= j < r@.len() ==> moves@.contains(#[trigger] r@[j]),
            (*hash_move) matches Some(hm) ==> ((moves@.contains(hm) && (forall|i2: int|
                0 <= i2 < self.history@.len() ==> self.history@[i2] < 4000000)) ==> (r@.len() > 0
                && r@[0] == hm)),
    {
        let ghost hist_ok = forall|i2: int|
            0 <= i2 < self.history@.len() ==> self.history@[i2] < 4000000;
        let side_base: usize = if side_to_move_is_white(pos) {
            0
        } else {
            4096
        };
        let mut scored: Vec<ScoredMove> = Vec::new();
        let n = moves.len();
        let mut i: usize = 0;
        while i < n
            invariant
                self.wf(),
                n == moves@.len(),
                i <= n,
                scored@.len() == i as int,
                forall|j: int| 0 <= j < i ==> scored@[j].mv == moves@[j],
                hist_ok == (forall|i2: int|
                    0 <= i2 < self.history@.len() ==> self.history@[i2] < 4000000),
                forall|j: int| 0 <= j < i ==> (hist_ok ==> (#[trigger] scored@[j].key)
                    >= -4000000),
                forall|j: int|
                    0 <= j < i ==> (hist_ok ==> (((#[trigger] scored@[j].key) == -4000000)
                        <==> ((*hash_move) matches Some(hm) && scored@[j].mv == hm))),
                side_base == 0 || side_base == 4096,
            decreases n - i,
        {
            let m = moves[i];
            let hash_hit = match hash_move {
                Some(hm) => moves_equal(&m, hm),
                None => false,
            };
            let capture = move_is_capture(&m);
            let to = move_to_sq(&m);
            let from_opt = move_from_sq(&m);
            let victim: u8 = if capture {
                match role_at_sq(pos, to) {
                    Some(k) => k,
                    None => 1,
                }
            } else {
                1
            };
            let attacker: u8 = match from_opt {
                Some(f) => match role_at_sq(pos, f) {
                    Some(k) => k,
                    None => 1,
                },
                None => 1,
            };
            let mut killer0 = false;
            let mut killer1 = false;
            if depth < 64 {
                let d = depth as usize;
                killer0 = match &self.killers[2 * d] {
                    Some(k) => moves_equal(&m, k),
                    None => false,
                };
                killer1 = match &self.killers[2 * d + 1] {
                    Some(k) => moves_equal(&m, k),
                    None => false,
                };
            }
            let promotion = move_is_promotion(&m);
            let hist: u32 = match from_opt {
                Some(f) => self.history[side_base + (f as usize) * 64 + (to as usize)],
                None => 0,
            };
            let key = move_key(hash_hit, capture, victim, attacker, killer0, killer1, promotion, hist);
            scored.push(ScoredMove { key, mv: m });
            i = i + 1;
        }
        let ghost scored_view = scored@;
        let sorted = sort_by_key(scored);
        let mut out: Vec<Move> = Vec::new();
        let mut k: usize = 0;
        while k < sorted.len()
            invariant
                k <= sorted@.len(),
                sorted@.len() == n as int,
                out@.len() == k as int,
                forall|j: int| 0 <= j < k ==> out@[j] == sorted@[j].mv,
            decreases sorted@.len() - k,
        {
            out.push(sorted[k].mv);
            k = k + 1;
        }
        proof {
            assert forall|j: int| 0 <= j < out@.len() implies moves@.contains(#[trigger] out@[j]) by {
                assert(sorted@.contains(sorted@[j]));
                assert(sorted@.to_multiset().count(sorted@[j]) > 0);
                assert(scored_view.to_multiset().count(sorted@[j]) > 0);
                assert(scored_view.contains(sorted@[j]));
                let idx = choose|i2: int|
                    0 <= i2 < scored_view.len() && scored_view[i2] == sorted@[j];
                assert(moves@[idx] == out@[j]);
            }
            assert(moves@ =~= moves_of(scored_view));
            assert(out@ =~= moves_of(sorted@));
            lemma_moves_of_multiset(sorted@, scored_view);
            assert(out@.to_multiset() == moves@.to_multiset());
            match *hash_move {
                Some(hm) => {
                    if hist_ok && moves@.contains(hm) {
                        let jdx = choose|j: int| 0 <= j < moves@.len() && moves@[j] == hm;
                        assert(scored_view[jdx].mv == hm);
                        assert(scored_view[jdx].key == -4000000);
                        assert(scored_view.contains(scored_view[jdx]));
                        assert(scored_view.to_multiset().count(scored_view[jdx]) > 0);
                        assert(sorted@.to_multiset().count(scored_view[jdx]) > 0);
                        assert(sorted@.contains(scored_view[jdx]));
                        let idx2 = choose|j: int|
                            0 <= j < sorted@.len() && sorted@[j] == scored_view[jdx];
                        assert(sorted@[0].key <= sorted@[idx2].key);
                        assert(sorted@.contains(sorted@[0]));
                        assert(sorted@.to_multiset().count(sorted@[0]) > 0);
                        assert(scored_view.to_multiset().count(sorted@[0]) > 0);
                        assert(scored_view.contains(sorted@[0]));
                        let j0 = choose|j: int|
                            0 <= j < scored_view.len() && scored_view[j] == sorted@[0];
                        assert(scored_view[j0].key >= -4000000);
                        assert(sorted@[0].key == -4000000);
                        assert(scored_view[j0].mv == hm);
                        assert(out@[0] == sorted@[0].mv);
                        assert(out@[0] == hm);
                    }
                },
                None => {},
            }
        }
        out
    }

    /// Horizon refinement: explore capture chains only, so that the
    /// static score is never read in the middle of an exchange.
    /// Fail-hard: the result lies inside the caller's window.
    fn quiescence(&self, pos: &Chess, alpha: i32, beta: i32, fuel: u32) -> (r: i32)
        requires
            self.wf(),
            -40000 <= alpha < beta <= 40000,
        ensures
            alpha <= r <= beta,
        decreases fuel,
    {
        let stand_pat = evaluate(pos);
        if stand_pat >= beta {
            return beta;
        }
        let mut a = alpha;
        if a < stand_pat {
            a = stand_pat;
        }
        if fuel == 0 {
            return a;
        }
        let legals = legal_moves_of(pos);
        let mut captures: Vec<Move> = Vec::new();
        let n = legals.len();
        let mut i: usize = 0;
        while i < n
            invariant
                n == legals@.len(),
                i <= n,
            decreases n - i,
        {
            let m = legals[i];
            if move_is_capture(&m) {
                captures.push(m);
            }
            i = i + 1;
        }
        let none_hint: Option<Move> = None;
        let ordered = self.order_moves(pos, captures, &none_hint, 0);
        let cn = ordered.len();
        let mut j: usize = 0;
        while j < cn
            invariant
                self.wf(),
                cn == ordered@.len(),
                j <= cn,
                fuel >= 1,
                -40000 <= alpha <= a,
                a < beta <= 40000,
            decreases cn - j,
        {
            let m = ordered[j];
            match play_move(pos, m) {
                Some(next) => {
                    let score = -self.quiescence(&next, -beta, -a, fuel - 1);
                    if score >= beta {
                        return beta;
                    }
                    if score > a {
                        a = score;
                    }
                },
                None => {},
            }
            j = j + 1;
        }
        a
    }

    /// Negamax alpha-beta.  `depth` is the remaining plies to the
    /// horizon, `ply` the distance from the root.  The result always
    /// lies inside the score window, and the search state stays
    /// well-formed.
    pub fn alpha_beta(&mut self, pos: &Chess, alpha: i32, beta: i32, depth: u32, ply: u32)
        -> (r: i32)
        requires
            old(self).wf(),
            -40000 <= alpha < beta <= 40000,
            depth < 0xffffffff,
            ply <= 100,
        ensures
            final(self).wf(),
            -40000 <= r <= 40000,
            forall|i: int|
                0 <= i < 8192 ==> final(self).history@[i] >= old(self).history@[i],
        decreases 100 - ply,
    {
        if ply >= PLY_LIMIT {
            return evaluate(pos);
        }
        let hash = zobrist_key(pos);
        let in_chk = position_in_check(pos);
        let depth: u32 = if in_chk {
            depth + 1
        } else {
            depth
        };
        let mut alpha = alpha;
        let mut beta = beta;
        match self.tt.get(&hash) {
            Some(entry) => {
                proof {
                    assert(self.tt@.contains_key(hash));
                }
                if entry.depth >= depth {
                    match entry.node_type {
                        NodeType::Exact => {
                            return entry.score;
                        },
                        NodeType::LowerBound => {
                            if entry.score > alpha {
                                alpha = entry.score;
                            }
                        },
                        NodeType::UpperBound => {
                            if entry.score < beta {
                                beta = entry.score;
                            }
                        },
                    }
                    if alpha >= beta {
                        return entry.score;
                    }
                }
            },
            None => {},
        }
        if depth == 0 {
            return self.quiescence(pos, alpha, beta, QUIESCENCE_FUEL);
        }
        if position_is_game_over(pos) {
            return evaluate(pos);
        }
        if depth == 1 && !in_chk {
            let static_eval = evaluate(pos);
            if static_eval - 160 >= beta {
                return beta;
            }
        }
        if depth >= 3 && !in_chk && ply > 0 {
            let b = board_data(pos);
            if has_non_pawn_material(&b, b.white_to_move) {
                match try_swap_turn(pos) {
                    Some(swapped) => {
                        let score = -self.alpha_beta(&swapped, -beta, -beta + 1, depth - 3, ply + 1);
                        if score >= beta {
                            return beta;
                        }
                    },
                    None => {},
                }
            }
        }
        let mut hash_move: Option<Move> = match self.tt.get(&hash) {
            Some(e) => e.best_move,
            None => None,
        };
        if hash_move.is_none() && depth >= 4 {
            let _ = self.alpha_beta(pos, alpha, beta, depth - 2, ply + 1);
            hash_move = match self.tt.get(&hash) {
                Some(e) => e.best_move,
                None => None,
            };
        }
        let legals = legal_moves_of(pos);
        if legals.len() == 0 {
            if in_chk {
                return mated_score_at(ply);
            }
            return 0;
        }
        let ordered = self.order_moves(pos, legals, &hash_move, depth);
        let ghost h_pre = self.history@;
        assert(forall|i: int| 0 <= i < 8192 ==> h_pre[i] >= old(self).history@[i]);
        let mut best_score: i32 = -SCORE_INF;
        let mut best_move: Option<Move> = None;
        let old_alpha = alpha;
        let n = ordered.len();
        let mut i: usize = 0;
        while i < n
            invariant_except_break
                alpha < beta,
            invariant
                self.wf(),
                n == ordered@.len(),
                i <= n,
                -40000 <= alpha <= 40000,
                -40000 <= beta <= 40000,
                -40000 <= best_score <= 40000,
                old_alpha <= alpha,
                1 <= depth,
                ply < 100,
                forall|i2: int| 0 <= i2 < 8192 ==> self.history@[i2] >= h_pre[i2],
            decreases n - i,
        {
            let m = ordered[i];
            let next = match play_move(pos, m) {
                Some(n) => n,
                None => {
                    i = i + 1;
                    continue;
                },
            };
            let mut score: i32;
            if i == 0 {
                score = -self.alpha_beta(&next, -beta, -alpha, depth - 1, ply + 1);
            } else {
                if i >= 4 && depth >= 3 && !move_is_capture(&m) && !in_chk && !position_in_check(
                    &next,
                ) {
                    let cap: u32 = depth / 3;
                    let iq: usize = i / 4;
                    let red: u32 = 1 + if iq < cap as usize {
                        iq as u32
                    } else {
                        cap
                    };
                    assert(red <= depth - 1);
                    score = -self.alpha_beta(&next, -(alpha + 1), -alpha, depth - 1 - red, ply + 1);
                } else {
                    score = alpha + 1;
                }
                if score > alpha {
                    score = -self.alpha_beta(&next, -(alpha + 1), -alpha, depth - 1, ply + 1);
                    if score > alpha && score < beta {
                        score = -self.alpha_beta(&next, -beta, -alpha, depth - 1, ply + 1);
                    }
                }
            }
            if score > best_score {
                best_score = score;
                best_move = Some(m);
            }
            if score > alpha {
                alpha = score;
            }
            if alpha >= beta {
                if !move_is_capture(&m) && depth < 64 {
                    let d = depth as usize;
                    let prev = self.killers[2 * d];
                    self.killers[2 * d + 1] = prev;
                    self.killers[2 * d] = Some(m);
                    match move_from_sq(&m) {
                        Some(f) => {
                            let to = move_to_sq(&m);
                            let base: usize = if side_to_move_is_white(pos) {
                                0
                            } else {
                                4096
                            };
                            let idx = base + (f as usize) * 64 + (to as usize);
                            let h = self.history[idx];
                            assert(depth * depth <= 4096) by (nonlinear_arith)
                                requires
                                    depth <= 64,
                            ;
                            let add = depth * depth;
                            let newh: u32 = if h > 0xffffffffu32 - add {
                                0xffffffffu32
                            } else {
                                h + add
                            };
                            self.history[idx] = newh;
                        },
                        None => {},
                    }
                }
                break;
            }
            i = i + 1;
        }
        let node_type = if best_score <= old_alpha {
            NodeType::UpperBound
        } else if best_score >= beta {
            NodeType::LowerBound
        } else {
            NodeType::Exact
        };
        self.tt.insert(hash, TTEntry { depth, score: best_score, node_type, best_move });
        best_score
    }

    /// Iterative deepening with aspiration windows.  The opening book
    /// is consulted first; on a miss each depth up to `max_depth` is
    /// searched, the window narrowed around the previous score, and
    /// the root's transposition entry read back for the best move.
    /// Whenever the position has a legal move, a legal move is
    /// returned (`choose_root_move` guards the candidate).
    pub fn find_best_move(&mut self, pos: &Chess, max_depth: u32) -> (r: Option<Move>)
        requires
            old(self).wf(),
        ensures
            final(self).wf(),
    {
        match self.book.get_move(pos) {
            Some(text) => {
                match uci_to_legal_move(pos, text.as_str()) {
                    Some(m) => {
                        return Some(m);
                    },
                    None => {},
                }
            },
            None => {},
        }
        let legals = legal_moves_of(pos);
        let md: u32 = if max_depth == 0xffffffff {
            0xfffffffe
        } else {
            max_depth
        };
        let mut alpha: i32 = -SCORE_INF;
        let mut beta: i32 = SCORE_INF;
        let mut candidate: Option<Move> = None;
        let mut d: u32 = 1;
        while d <= md
            invariant
                self.wf(),
                -40000 <= alpha < beta <= 40000,
                md < 0xffffffff,
                1 <= d,
            decreases md + 1 - d,
        {
            let score = self.alpha_beta(pos, alpha, beta, d, 0);
            if score <= alpha || score >= beta {
                alpha = -40000;
                beta = 40000;
                let _ = self.alpha_beta(pos, alpha, beta, d, 0);
            } else {
                alpha = if score - 50 < -40000 {
                    -40000
                } else {
                    score - 50
                };
                beta = if score + 50 > 40000 {
                    40000
                } else {
                    score + 50
                };
            }
            let hash = zobrist_key(pos);
            match self.tt.get(&hash) {
                Some(e) => {
                    match e.best_move {
                        Some(bm) => {
                            candidate = Some(bm);
                        },
                        None => {},
                    }
                },
                None => {},
            }
            d = d + 1;
        }
        choose_root_move(&legals, candidate)
    }
}

} // verus!
