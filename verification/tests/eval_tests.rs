use betterfish::board::BoardData;
use betterfish::evaluation::{eval_board, evaluate, terminal_score};
use shakmaty::fen::Fen;
use shakmaty::{CastlingMode, Chess};

fn from_fen(fen: &str) -> Chess {
    fen.parse::<Fen>()
        .expect("fen parses")
        .into_position::<Chess>(CastlingMode::Standard)
        .expect("position is legal")
}

fn empty_board(white_to_move: bool) -> BoardData {
    BoardData {
        white: 0,
        black: 0,
        pawns: 0,
        knights: 0,
        bishops: 0,
        rooks: 0,
        queens: 0,
        kings: 0,
        white_to_move,
    }
}

#[test]
fn empty_board_scores_zero() {
    assert_eq!(eval_board(&empty_board(true), 0), 0);
    assert_eq!(eval_board(&empty_board(false), 0), 0);
}

#[test]
fn lone_white_pawn_exact_score() {
    // A single white pawn on e2, White to move, no mobility credit.
    // Phase is pure endgame (no minor or major pieces), so the pawn
    // piece-square value at relative rank 1 is 0; material 100; the
    // pawn is isolated (-12) and passed at relative rank 1 (+5).
    let mut b = empty_board(true);
    let e2: u64 = 1u64 << 12;
    b.white = e2;
    b.pawns = e2;
    assert_eq!(eval_board(&b, 0), 93);
}

#[test]
fn lone_pawn_score_flips_with_side_to_move() {
    let mut b = empty_board(false);
    let e2: u64 = 1u64 << 12;
    b.white = e2;
    b.pawns = e2;
    assert_eq!(eval_board(&b, 0), -93);
}

#[test]
fn mobility_adds_half_a_point_per_move() {
    let b = empty_board(true);
    assert_eq!(eval_board(&b, 20), 10);
    assert_eq!(eval_board(&b, 21), 10);
}

#[test]
fn bishop_pair_counts_fifty() {
    // Two white bishops on c1 and f1 against none: pair bonus for the
    // side to move on top of the per-piece terms.
    let mut with_pair = empty_board(true);
    let c1: u64 = 1u64 << 2;
    let f1: u64 = 1u64 << 5;
    with_pair.white = c1 | f1;
    with_pair.bishops = c1 | f1;
    let mut one_bishop = empty_board(true);
    one_bishop.white = c1;
    one_bishop.bishops = c1;
    let pair_score = eval_board(&with_pair, 0);
    let single_score = eval_board(&one_bishop, 0);
    // The f1 bishop itself is worth 330 plus its square value (-2).
    assert_eq!(pair_score - single_score, 330 - 2 + 50);
}

#[test]
fn evaluate_is_pure() {
    let pos = from_fen("r1bqkbnr/pppp1ppp/2n5/4p3/2B1P3/5N2/PPPP1PPP/RNBQK2R b KQkq - 3 3");
    let a = evaluate(&pos);
    let b = evaluate(&pos);
    let c = evaluate(&pos);
    assert_eq!(a, b);
    assert_eq!(b, c);
}

#[test]
fn checkmate_evaluates_to_minus_mate() {
    // Fool's mate: White is checkmated.
    let pos = from_fen("rnb1kbnr/pppp1ppp/8/4p3/6Pq/5P2/PPPPP2P/RNBQKBNR w KQkq - 1 3");
    assert_eq!(evaluate(&pos), -30000);
}

#[test]
fn stalemate_evaluates_to_zero() {
    // Black to move has no legal move and is not in check.
    let pos = from_fen("7k/5Q2/6K1/8/8/8/8/8 b - - 0 1");
    assert_eq!(evaluate(&pos), 0);
}

#[test]
fn terminal_score_cases() {
    assert_eq!(terminal_score(true), -30000);
    assert_eq!(terminal_score(false), 0);
}

#[test]
fn startpos_evaluation_is_modest() {
    let pos = Chess::default();
    let v = evaluate(&pos);
    assert!(v.abs() <= 200, "starting score {}", v);
}

#[test]
fn mirrored_position_evaluates_equally() {
    // The same asymmetric pawn structure seen from both colors: the
    // board is flipped vertically and the colors are swapped.
    let white_view = from_fen("4k3/8/8/3p4/8/2P5/P7/4K3 w - - 0 1");
    let black_view = from_fen("4k3/p7/2p5/8/3P4/8/8/4K3 b - - 0 1");
    assert_eq!(evaluate(&white_view), evaluate(&black_view));
}

#[test]
fn mirrored_middlegame_evaluates_equally() {
    let white_view = from_fen("r3k2r/ppp2ppp/2n1bn2/3q4/8/2N1BN2/PPP2PPP/R2QK2R w KQkq - 0 1");
    let black_view = from_fen("r2qk2r/ppp2ppp/2n1bn2/8/3Q4/2N1BN2/PPP2PPP/R3K2R b KQkq - 0 1");
    assert_eq!(evaluate(&white_view), evaluate(&black_view));
}
