//! A chess engine core: alpha-beta negamax search with a transposition
//! table, iterative deepening, quiescence search and a static evaluator,
//! built on top of the `shakmaty` rules library.
//!
//! The rules library (move generation, legality, hashing) is reached only
//! through the trusted facade in `rules`; everything else is verified.

pub mod board;
pub mod evaluation;
pub mod rules;
pub mod tt;
pub mod ordering;
pub mod opening_book;
pub mod engine;
pub mod search_theory;
pub mod symmetry;
