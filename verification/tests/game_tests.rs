use simple_chess::game::outcome_from;
use simple_chess::game::choose_move;
use simple_chess::pieces::ChessMove;
use simple_chess::game::{moves_starting_at, targets_of};
use simple_chess::game::{GameState, Outcome};
use simple_chess::pieces::{PieceColor, PieceRole};
use shakmaty::Square;

fn sq(s: Square) -> u8 {
    s as u8
}

#[test]
fn new_game_has_32_pieces() {
    let g = GameState::new();
    assert_eq!(g.all_pieces().len(), 32);
}

#[test]
fn white_moves_first() {
    let g = GameState::new();
    assert_eq!(g.turn(), PieceColor::White);
}

#[test]
fn white_has_20_opening_moves() {
    let g = GameState::new();
    assert_eq!(g.legal_moves().len(), 20);
}

#[test]
fn e2_pawn_can_reach_e3_and_e4() {
    let g = GameState::new();
    let reachable = g.reachable_squares(sq(Square::E2));
    assert!(reachable.contains(&sq(Square::E3)));
    assert!(reachable.contains(&sq(Square::E4)));
    assert_eq!(reachable.len(), 2);
}

#[test]
fn illegal_move_is_rejected() {
    let mut g = GameState::new();
    let ok = g.apply_move(sq(Square::E2), sq(Square::E5));
    assert!(!ok, "e2→e5 should be rejected as illegal");
    assert_eq!(g.turn(), PieceColor::White);
}

#[test]
fn legal_move_switches_turn() {
    let mut g = GameState::new();
    let ok = g.apply_move(sq(Square::E2), sq(Square::E4));
    assert!(ok);
    assert_eq!(g.turn(), PieceColor::Black);
}

#[test]
fn scholars_mate_is_checkmate() {
    let mut g = GameState::new();
    assert!(g.apply_move(sq(Square::E2), sq(Square::E4)));
    assert!(g.apply_move(sq(Square::E7), sq(Square::E5)));
    assert!(g.apply_move(sq(Square::F1), sq(Square::C4)));
    assert!(g.apply_move(sq(Square::B8), sq(Square::C6)));
    assert!(g.apply_move(sq(Square::D1), sq(Square::H5)));
    assert!(g.apply_move(sq(Square::A7), sq(Square::A6)));
    assert!(g.apply_move(sq(Square::H5), sq(Square::F7)));
    assert_eq!(g.outcome(), Outcome::Checkmate { winner: PieceColor::White });
}

#[test]
fn from_fen_parses_valid_position() {
    let fen = "rnbqkbnr/pppppppp/8/8/8/8/PPPPPPPP/RNBQKBNR w KQkq - 0 1";
    let g = GameState::from_fen(fen).expect("valid FEN should parse");
    assert_eq!(g.all_pieces().len(), 32);
}

#[test]
fn from_fen_rejects_invalid_string() {
    assert!(GameState::from_fen("not a fen").is_none());
}

#[test]
fn outcome_is_in_progress_at_start() {
    let g = GameState::new();
    assert_eq!(g.outcome(), Outcome::InProgress);
}

#[test]
fn to_fen_starting_position() {
    let g = GameState::new();
    assert_eq!(g.to_fen(), "rnbqkbnr/pppppppp/8/8/8/8/PPPPPPPP/RNBQKBNR w KQkq - 0 1");
}

#[test]
fn to_fen_after_e4_e5() {
    let mut g = GameState::new();
    g.apply_move(sq(Square::E2), sq(Square::E4));
    g.apply_move(sq(Square::E7), sq(Square::E5));
    assert_eq!(g.to_fen(), "rnbqkbnr/pppp1ppp/8/4p3/4P3/8/PPPP1PPP/RNBQKBNR w KQkq - 0 2");
}

#[test]
fn stalemate_is_detected() {
    let g = GameState::from_fen("7k/5Q2/6K1/8/8/8/8/8 b - - 0 1").unwrap();
    assert_eq!(g.outcome(), Outcome::Stalemate);
    assert!(!g.is_in_check());
}

#[test]
fn check_is_reported() {
    let g = GameState::from_fen("4k3/8/8/8/8/8/8/4R2K b - - 0 1").unwrap();
    assert!(g.is_in_check());
    assert_eq!(g.outcome(), Outcome::InProgress);
}

#[test]
fn promotion_prefers_queen() {
    let mut g = GameState::from_fen("8/P6k/8/8/8/8/8/K7 w - - 0 1").unwrap();
    assert_eq!(g.legal_moves_from(sq(Square::A7)).len(), 4);
    assert!(g.apply_move(sq(Square::A7), sq(Square::A8)));
    assert_eq!(g.piece_at(sq(Square::A8)), Some((PieceColor::White, PieceRole::Queen)));
}

#[test]
fn castling_targets_the_rook_square() {
    let mut g = GameState::from_fen("4k3/8/8/8/8/8/8/4K2R w K - 0 1").unwrap();
    let reach = g.reachable_squares(sq(Square::E1));
    assert!(reach.contains(&sq(Square::H1)));
    assert!(!reach.contains(&sq(Square::G1)));
    assert!(g.apply_move(sq(Square::E1), sq(Square::H1)));
    assert_eq!(g.piece_at(sq(Square::G1)), Some((PieceColor::White, PieceRole::King)));
    assert_eq!(g.piece_at(sq(Square::F1)), Some((PieceColor::White, PieceRole::Rook)));
}

#[test]
fn piece_at_reads_the_board() {
    let g = GameState::new();
    assert_eq!(g.piece_at(sq(Square::E1)), Some((PieceColor::White, PieceRole::King)));
    assert_eq!(g.piece_at(sq(Square::D8)), Some((PieceColor::Black, PieceRole::Queen)));
    assert_eq!(g.piece_at(sq(Square::E4)), None);
    assert_eq!(g.piece_at(64), None);
}

#[test]
fn all_pieces_ascend_and_agree_with_piece_at() {
    let g = GameState::new();
    let ps = g.all_pieces();
    for w in ps.windows(2) {
        assert!(w[0].0 < w[1].0);
    }
    for (s, c, r) in ps {
        assert_eq!(g.piece_at(s), Some((c, r)));
    }
}

#[test]
fn default_is_the_start() {
    assert_eq!(GameState::default().to_fen(), GameState::new().to_fen());
}

#[test]
fn from_fen_normalizes_irrelevant_en_passant() {
    // No pawn can take en passant, so the written FEN drops the square.
    let g = GameState::from_fen("rnbqkbnr/pppppppp/8/8/4P3/8/PPPP1PPP/RNBQKBNR b KQkq e3 0 1").unwrap();
    assert_eq!(g.to_fen(), "rnbqkbnr/pppppppp/8/8/4P3/8/PPPP1PPP/RNBQKBNR b KQkq - 0 1");
}

#[test]
fn outcome_from_engine_answers() {
    assert_eq!(outcome_from(true, false, PieceColor::Black), Outcome::Checkmate { winner: PieceColor::White });
    assert_eq!(outcome_from(true, false, PieceColor::White), Outcome::Checkmate { winner: PieceColor::Black });
    assert_eq!(outcome_from(false, true, PieceColor::White), Outcome::Stalemate);
    assert_eq!(outcome_from(false, false, PieceColor::Black), Outcome::InProgress);
}

#[test]
fn choose_move_prefers_queen_promotion() {
    let promo = |r: PieceRole| ChessMove { from: Some(52), to: 60, promotion: Some(r) };
    let moves = vec![
        ChessMove { from: Some(12), to: 28, promotion: None },
        promo(PieceRole::Knight),
        promo(PieceRole::Bishop),
        promo(PieceRole::Queen),
        promo(PieceRole::Rook),
    ];
    assert_eq!(choose_move(&moves, 52, 60), Some(3));
    assert_eq!(choose_move(&moves, 12, 28), Some(0));
    assert_eq!(choose_move(&moves, 12, 20), None);
    assert_eq!(choose_move(&vec![], 12, 28), None);
}

#[test]
fn moves_are_filtered_and_mapped_in_order() {
    let moves = vec![
        ChessMove { from: Some(12), to: 20, promotion: None },
        ChessMove { from: Some(6), to: 21, promotion: None },
        ChessMove { from: Some(12), to: 28, promotion: None },
        ChessMove { from: None, to: 30, promotion: None },
    ];
    let from_e2 = moves_starting_at(&moves, 12);
    assert_eq!(from_e2, vec![moves[0], moves[2]]);
    assert_eq!(targets_of(&from_e2), vec![20, 28]);
    assert_eq!(targets_of(&moves), vec![20, 21, 28, 30]);
    assert!(moves_starting_at(&moves, 0).is_empty());
}

#[test]
fn apply_move_accepts_exactly_the_legal_moves() {
    let start = GameState::new();
    for from in 0u8..64 {
        let targets = start.reachable_squares(from);
        for to in 0u8..64 {
            let mut g = start.snapshot();
            assert_eq!(g.apply_move(from, to), targets.contains(&to), "{from}->{to}");
        }
    }
    // Only underpromotions would be left if the queen were missing: the queen is taken.
    let mut g = GameState::from_fen("8/4P1k1/8/8/8/8/8/4K3 w - - 0 1").unwrap();
    assert!(g.apply_move(52, 60));
    assert_eq!(g.piece_at(60), Some((PieceColor::White, PieceRole::Queen)));
}
