use betterfish::opening_book::OpeningBook;
use betterfish::ordering::{move_key, see_simple, sort_by_key, ScoredMove};
use betterfish::rules::legal_moves_of;
use shakmaty::Chess;

#[test]
fn book_lookup_picks_by_index() {
    let book = OpeningBook::new();
    let key = "rnbqkbnr/pppppppp/8/8/8/8/PPPPPPPP/RNBQKBNR w KQkq -".to_string();
    assert_eq!(book.lookup(&key, 0).as_deref(), Some("e2e4"));
    assert_eq!(book.lookup(&key, 3).as_deref(), Some("g1f3"));
    assert_eq!(book.lookup(&key, 8).as_deref(), Some("e2e4"));
}

#[test]
fn book_misses_unknown_position() {
    let book = OpeningBook::new();
    let key = "8/8/8/8/8/8/8/8 w - -".to_string();
    assert!(book.lookup(&key, 0).is_none());
}

#[test]
fn book_knows_the_sicilian() {
    let book = OpeningBook::new();
    let key = "rnbqkbnr/pp1ppppp/8/2p5/4P3/8/PPPP1PPP/RNBQKBNR w KQkq -".to_string();
    assert_eq!(book.lookup(&key, 1).as_deref(), Some("b1c3"));
}

#[test]
fn book_caro_kann_line_is_exact() {
    let book = OpeningBook::new();
    let key = "rnbqkbnr/pp1ppppp/2p5/8/3PP3/8/PPP2PPP/RNBQKBNR b KQkq -".to_string();
    // The line holds exactly one candidate, so every pick returns it.
    assert_eq!(book.lookup(&key, 0).as_deref(), Some("d7d5"));
    assert_eq!(book.lookup(&key, 17).as_deref(), Some("d7d5"));
}

#[test]
fn see_estimate_values() {
    // Pawn takes queen: 900 - 100/10.
    assert_eq!(see_simple(5, 1), 890);
    // Queen takes pawn: 100 - 900/10.
    assert_eq!(see_simple(1, 5), 10);
    // Rook takes rook.
    assert_eq!(see_simple(4, 4), 450);
}

#[test]
fn move_key_classes_in_priority_order() {
    let hash_key = move_key(true, true, 5, 1, false, false, false, 0);
    let capture_key = move_key(false, true, 5, 1, false, false, false, 0);
    let killer0_key = move_key(false, false, 1, 1, true, false, false, 0);
    let killer1_key = move_key(false, false, 1, 1, false, true, false, 0);
    let promo_key = move_key(false, false, 1, 1, false, false, true, 0);
    let quiet_key = move_key(false, false, 1, 1, false, false, false, 7);
    assert_eq!(hash_key, -4000000);
    assert_eq!(capture_key, -2000000 - 890);
    assert_eq!(killer0_key, -900000);
    assert_eq!(killer1_key, -800000);
    assert_eq!(promo_key, -700000);
    assert_eq!(quiet_key, -7);
    assert!(hash_key < capture_key);
    assert!(capture_key < killer0_key);
    assert!(killer0_key < killer1_key);
    assert!(killer1_key < promo_key);
    assert!(promo_key < quiet_key);
}

#[test]
fn better_captures_sort_earlier() {
    // Taking a queen with a pawn beats taking a pawn with a queen.
    let pawn_takes_queen = move_key(false, true, 5, 1, false, false, false, 0);
    let queen_takes_pawn = move_key(false, true, 1, 5, false, false, false, 0);
    assert!(pawn_takes_queen < queen_takes_pawn);
}

#[test]
fn sort_by_key_sorts_and_permutes() {
    let pos = Chess::default();
    let legals = legal_moves_of(&pos);
    let mut scored: Vec<ScoredMove> = Vec::new();
    let keys: [i64; 6] = [3, -4000000, 0, -7, -900000, -7];
    for (i, k) in keys.iter().enumerate() {
        scored.push(ScoredMove { key: *k, mv: legals[i] });
    }
    let sorted = sort_by_key(scored);
    assert_eq!(sorted.len(), 6);
    let got: Vec<i64> = sorted.iter().map(|s| s.key).collect();
    assert_eq!(got, vec![-4000000, -900000, -7, -7, 0, 3]);
    // The two equal keys keep their original order: stability.
    assert_eq!(sorted[2].mv, legals[3]);
    assert_eq!(sorted[3].mv, legals[5]);
    // Each input move appears exactly once.
    for i in 0..6 {
        assert_eq!(sorted.iter().filter(|s| s.mv == legals[i]).count(), 1);
    }
}
