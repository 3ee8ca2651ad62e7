//! Soundness of alpha-beta pruning.
//!
//! The search in `engine` prunes: a child whose score reaches `beta`
//! cuts the node, and the window narrows as `alpha` rises.  This
//! module states why that is allowed, on an abstract game tree whose
//! leaves carry the mover's score: the pruned negamax value agrees
//! with plain minimax whenever it lands strictly inside the window,
//! and is a sound bound on it otherwise.  With the full score window
//! the two are equal on every tree.

use vstd::prelude::*;

verus! {

broadcast use vstd::seq::axiom_seq_index_decreases;

/// An abstract game tree: a terminal position with its score from
/// the mover's viewpoint, or an interior position with the subtrees
/// reached by its moves.
pub enum GameTree {
    Leaf(int),
    Node(Seq<GameTree>),
}

/// Leaf scores lie strictly inside the score window, and interior
/// nodes have at least one move.
pub open spec fn tree_wf(t: GameTree) -> bool
    decreases t,
{
    match t {
        GameTree::Leaf(v) => -40000 < v < 40000,
        GameTree::Node(cs) => cs.len() > 0 && (forall|i: int|
            0 <= i < cs.len() ==> tree_wf(#[trigger] cs[i])),
    }
}

/// Plain negamax minimax: a leaf is its score, an interior node the
/// best negated value among its subtrees.
pub open spec fn minimax(t: GameTree) -> int
    decreases t, 0int,
{
    match t {
        GameTree::Leaf(v) => v,
        GameTree::Node(cs) => best_reply(cs, cs.len() as int),
    }
}

/// Best negated minimax among the first `n` subtrees.
pub open spec fn best_reply(cs: Seq<GameTree>, n: int) -> int
    decreases cs, n,
{
    if n <= 0 || n > cs.len() {
        -40000
    } else {
        let s = -minimax(cs[n - 1]);
        let prev = best_reply(cs, n - 1);
        if s > prev {
            s
        } else {
            prev
        }
    }
}

/// Alpha-beta negamax: as minimax, but the window narrows as scores
/// come in and a score reaching `beta` cuts the node.
pub open spec fn alpha_beta_value(t: GameTree, alpha: int, beta: int) -> int
    decreases t, 0int,
{
    match t {
        GameTree::Leaf(v) => v,
        GameTree::Node(cs) => ab_children(cs, 0, alpha, beta, -40000),
    }
}

/// The engine's move loop: search child `i` with the negated window,
/// raise `best` and `alpha`, cut when `alpha` reaches `beta`.
pub open spec fn ab_children(cs: Seq<GameTree>, i: int, alpha: int, beta: int, best: int) -> int
    decreases cs, cs.len() - i,
{
    if i < 0 || i >= cs.len() {
        best
    } else {
        let s = -alpha_beta_value(cs[i], -beta, -alpha);
        let best2 = if s > best {
            s
        } else {
            best
        };
        let alpha2 = if s > alpha {
            s
        } else {
            alpha
        };
        if alpha2 >= beta {
            best2
        } else {
            ab_children(cs, i + 1, alpha2, beta, best2)
        }
    }
}

proof fn lemma_best_reply_bounds(cs: Seq<GameTree>, n: int)
    requires
        forall|i: int| 0 <= i < cs.len() ==> tree_wf(#[trigger] cs[i]),
        1 <= n <= cs.len(),
    ensures
        -40000 < best_reply(cs, n) < 40000,
    decreases cs, n,
{
    lemma_minimax_bounds(cs[n - 1]);
    if n > 1 {
        lemma_best_reply_bounds(cs, n - 1);
    }
}

/// On a well-formed tree the minimax value stays strictly inside the
/// score window.
pub proof fn lemma_minimax_bounds(t: GameTree)
    requires
        tree_wf(t),
    ensures
        -40000 < minimax(t) < 40000,
    decreases t, 0int,
{
    match t {
        GameTree::Leaf(_) => {},
        GameTree::Node(cs) => {
            lemma_best_reply_bounds(cs, cs.len() as int);
        },
    }
}

/// The best reply over a longer prefix never gets worse.
proof fn lemma_best_reply_monotonic(cs: Seq<GameTree>, k: int, n: int)
    requires
        0 <= k <= n <= cs.len(),
    ensures
        best_reply(cs, k) <= best_reply(cs, n),
    decreases n - k,
{
    if k < n {
        lemma_best_reply_monotonic(cs, k, n - 1);
    }
}

/// The best reply dominates every subtree it covers.
proof fn lemma_best_reply_covers(cs: Seq<GameTree>, j: int, n: int)
    requires
        0 <= j < n <= cs.len(),
    ensures
        -minimax(cs[j]) <= best_reply(cs, n),
    decreases n,
{
    if j < n - 1 {
        lemma_best_reply_covers(cs, j, n - 1);
    }
}

/// Alpha-beta soundness, the heart of the pruning rule: the pruned
/// value is exact inside the window, an upper bound on minimax when
/// it fails low, and a lower bound when it fails high.
pub proof fn lemma_alpha_beta_sound(t: GameTree, alpha: int, beta: int)
    requires
        tree_wf(t),
        -40000 <= alpha < beta <= 40000,
    ensures
        ({
            let v = alpha_beta_value(t, alpha, beta);
            &&& v <= alpha ==> minimax(t) <= v
            &&& v >= beta ==> minimax(t) >= v
            &&& alpha < v < beta ==> v == minimax(t)
        }),
    decreases t, 1int,
{
    match t {
        GameTree::Leaf(_) => {},
        GameTree::Node(cs) => {
            lemma_ab_children_sound(cs, 0, alpha, beta, -40000, alpha);
        },
    }
}

/// Invariant-carrying induction over the move loop.  `alpha0` is the
/// window bound the node was entered with; `best` and `alpha` are the
/// loop state after the first `i` children.
proof fn lemma_ab_children_sound(
    cs: Seq<GameTree>,
    i: int,
    alpha: int,
    beta: int,
    best: int,
    alpha0: int,
)
    requires
        forall|j: int| 0 <= j < cs.len() ==> tree_wf(#[trigger] cs[j]),
        cs.len() > 0,
        0 <= i <= cs.len(),
        -40000 <= alpha0 < beta <= 40000,
        alpha == if best > alpha0 {
            best
        } else {
            alpha0
        },
        alpha < beta,
        -40000 <= best,
        best_reply(cs, i) <= best,
        best <= alpha0 || best <= best_reply(cs, i),
    ensures
        ({
            let v = ab_children(cs, i, alpha, beta, best);
            let m = best_reply(cs, cs.len() as int);
            &&& v <= alpha0 ==> m <= v
            &&& v >= beta ==> m >= v
            &&& alpha0 < v < beta ==> v == m
        }),
    decreases cs, cs.len() - i,
{
    let n = cs.len() as int;
    let m = best_reply(cs, n);
    if i >= n {
        // All children explored: `best` sandwiches the true value.
        assert(best_reply(cs, i) == m);
    } else {
        lemma_alpha_beta_sound(cs[i], -beta, -alpha);
        let abc = alpha_beta_value(cs[i], -beta, -alpha);
        let s = -abc;
        let truth = -minimax(cs[i]);
        lemma_minimax_bounds(cs[i]);
        // The child call classifies `s` against the window:
        // fail low for us means the child failed high, so `s` only
        // overestimates the truth; a cut means it underestimates it;
        // inside the window it is exact.
        assert(s <= alpha ==> truth <= s);
        assert(s >= beta ==> truth >= s);
        assert(alpha < s < beta ==> s == truth);
        let best2 = if s > best {
            s
        } else {
            best
        };
        let alpha2 = if s > alpha {
            s
        } else {
            alpha
        };
        assert(best_reply(cs, i + 1) == if truth > best_reply(cs, i) {
            truth
        } else {
            best_reply(cs, i)
        });
        if alpha2 >= beta {
            // Beta cutoff: the cutting score is a lower bound on the
            // node's true value, so reporting it is sound.
            lemma_best_reply_covers(cs, i, n);
            lemma_best_reply_monotonic(cs, i + 1, n);
            assert(ab_children(cs, i, alpha, beta, best) == best2);
            assert(s >= beta);
            assert(truth <= m);
            assert(best2 == s);
        } else {
            lemma_best_reply_monotonic(cs, i, i + 1);
            lemma_ab_children_sound(cs, i + 1, alpha2, beta, best2, alpha0);
        }
    }
}

/// The law the engine's full-window searches rely on: with the whole
/// score window open, alpha-beta computes exactly the minimax value.
pub proof fn lemma_full_window_equals_minimax(t: GameTree)
    requires
        tree_wf(t),
    ensures
        alpha_beta_value(t, -40000, 40000) == minimax(t),
{
    lemma_alpha_beta_sound(t, -40000, 40000);
    lemma_minimax_bounds(t);
    let v = alpha_beta_value(t, -40000, 40000);
    if v <= -40000 {
        assert(minimax(t) <= v);
        assert(false);
    }
    if v >= 40000 {
        assert(minimax(t) >= v);
        assert(false);
    }
}

} // verus!
