//! Transposition-table entries: cached search results keyed by the
//! 64-bit Zobrist hash of a position.

use vstd::prelude::*;
use shakmaty::Move;

verus! {

/// How the stored score relates to the true score of the node: exact,
/// or only a lower or an upper bound (the search window was cut).
#[derive(Clone, Copy, PartialEq, Eq, Structural)]
pub enum NodeType {
    Exact,
    LowerBound,
    UpperBound,
}

/// A cached search result: the depth it was searched to, the score
/// from the side-to-move viewpoint, its bound kind, and the best move
/// found, if any.
pub struct TTEntry {
    pub depth: u32,
    pub score: i32,
    pub node_type: NodeType,
    pub best_move: Option<Move>,
}

impl TTEntry {
    /// Scores in the table stay inside the search window bounds.
    pub open spec fn wf(self) -> bool {
        -40000 <= self.score <= 40000
    }
}

} // verus!
