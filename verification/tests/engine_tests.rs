use betterfish::engine::{choose_root_move, Engine};
use betterfish::rules::{board_data, legal_moves_of};
use betterfish::board::has_non_pawn_material;
use shakmaty::fen::Fen;
use shakmaty::{CastlingMode, Chess, Position};

fn from_fen(fen: &str) -> Chess {
    fen.parse::<Fen>()
        .expect("fen parses")
        .into_position::<Chess>(CastlingMode::Standard)
        .expect("position is legal")
}

fn uci_of(m: &shakmaty::Move) -> String {
    m.to_uci(CastlingMode::Standard).to_string()
}

#[test]
fn startpos_depth_one_returns_legal_move() {
    let pos = Chess::default();
    let mut engine = Engine::new();
    let m = engine.find_best_move(&pos, 1).expect("a move is returned");
    assert!(pos.legal_moves().contains(&m));
}

#[test]
fn book_hit_on_initial_position() {
    let pos = Chess::default();
    let mut engine = Engine::new();
    let m = engine.find_best_move(&pos, 1).expect("a move is returned");
    let uci = uci_of(&m);
    let expected = ["e2e4", "d2d4", "c2c4", "g1f3", "b1c3", "f2f4", "b2b3", "g2g3"];
    assert!(expected.contains(&uci.as_str()), "book move {} not among candidates", uci);
}

#[test]
fn mate_in_one_is_found() {
    let pos = from_fen("6k1/5ppp/8/8/8/8/5PPP/R5K1 w - - 0 1");
    let mut engine = Engine::new();
    let m = engine.find_best_move(&pos, 2).expect("a move is returned");
    assert_eq!(uci_of(&m), "a1a8");
    let mut engine2 = Engine::new();
    let score = engine2.alpha_beta(&pos, -40000, 40000, 2, 0);
    assert!(score >= 29999, "mate score was {}", score);
}

#[test]
fn mating_net_is_preferred_to_lesser_gains() {
    // The queen-and-king corner position: the engine must find the
    // mating move rather than settle for a quiet continuation.
    let pos = from_fen("7k/5Q2/6K1/8/8/8/8/8 w - - 0 1");
    let mut engine = Engine::new();
    let m = engine.find_best_move(&pos, 3).expect("a move is returned");
    let mut after = pos.clone();
    after.play_unchecked(m);
    assert!(after.is_checkmate(), "move {} did not deliver mate", uci_of(&m));
}

#[test]
fn mate_in_two_is_found() {
    // Rook and king against bare king: a short forced mate, searched
    // deep enough that the pruning heuristics cannot mask it.
    let pos = from_fen("7k/8/5K2/8/8/8/8/R7 w - - 0 1");
    let mut engine = Engine::new();
    let score = engine.alpha_beta(&pos, -40000, 40000, 6, 0);
    assert!(score >= 29999, "forced-mate score was {}", score);
}

#[test]
fn quiescence_wins_the_hanging_queen() {
    // The queens face each other and only White's move saves the day:
    // the capture must be resolved rather than averaged away.
    let pos = from_fen("4k3/8/8/3q4/8/8/3Q4/4K3 w - - 0 1");
    let mut engine = Engine::new();
    let score = engine.alpha_beta(&pos, -40000, 40000, 1, 0);
    assert!(score >= 700, "queen capture not resolved, score {}", score);
    let mut engine2 = Engine::new();
    let m = engine2.find_best_move(&pos, 1).expect("a move is returned");
    assert_eq!(uci_of(&m), "d2d5");
}

#[test]
fn zugzwang_side_has_no_null_move_material() {
    // King and pawn only: the null-move guard must refuse to pass.
    let pos = from_fen("7k/8/8/8/8/8/P7/K7 w - - 0 1");
    let b = board_data(&pos);
    assert!(b.white_to_move);
    assert!(!has_non_pawn_material(&b, b.white_to_move));
    let mut engine = Engine::new();
    let m = engine.find_best_move(&pos, 3).expect("a move is returned");
    assert!(pos.legal_moves().contains(&m));
}

#[test]
fn null_move_material_present_with_a_knight() {
    let pos = from_fen("7k/8/8/8/8/8/N7/K7 w - - 0 1");
    let b = board_data(&pos);
    assert!(has_non_pawn_material(&b, b.white_to_move));
}

#[test]
fn choose_root_move_prefers_legal_candidate() {
    let pos = Chess::default();
    let legals = legal_moves_of(&pos);
    let candidate = legals[5];
    let chosen = choose_root_move(&legals, Some(candidate)).expect("some move");
    assert_eq!(chosen, candidate);
}

#[test]
fn choose_root_move_rejects_foreign_candidate() {
    let pos = Chess::default();
    let legals = legal_moves_of(&pos);
    // A move that is legal only in another position.
    let other = from_fen("6k1/5ppp/8/8/8/8/5PPP/R5K1 w - - 0 1");
    let foreign = legal_moves_of(&other)[0];
    if !legals.contains(&foreign) {
        let chosen = choose_root_move(&legals, Some(foreign)).expect("some move");
        assert_eq!(chosen, legals[0]);
    }
}

#[test]
fn choose_root_move_empty_position_returns_none() {
    // A checkmated position has no legal moves.
    let pos = from_fen("rnb1kbnr/pppp1ppp/8/4p3/6Pq/5P2/PPPPP2P/RNBQKBNR w KQkq - 1 3");
    let legals = legal_moves_of(&pos);
    assert_eq!(legals.len(), 0);
    assert!(choose_root_move(&legals, None).is_none());
}

#[test]
fn terminal_root_returns_no_move() {
    let pos = from_fen("rnb1kbnr/pppp1ppp/8/4p3/6Pq/5P2/PPPPP2P/RNBQKBNR w KQkq - 1 3");
    let mut engine = Engine::new();
    assert!(engine.find_best_move(&pos, 2).is_none());
}
