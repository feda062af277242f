use simple_chess::board::shade_color;
use simple_chess::board::status_line;
use simple_chess::game::Outcome;
use simple_chess::board::king_square;
use simple_chess::board::{
    compute_status, coords_to_sq, display_files, display_ranks, file_letter, hint_label,
    initial_status, is_light_square, piece_glyph, sq_file_rank, square_shade, BoardState, HintState,
    SquareShade,
};
use simple_chess::game::GameState;
use simple_chess::openings::{parse_opening, OpeningEntry};
use simple_chess::pieces::{PieceColor, PieceRole};
use shakmaty::Square;

fn sq(s: Square) -> u8 {
    s as u8
}

fn ruy_lopez_board(color: PieceColor) -> BoardState {
    let e = OpeningEntry { eco: "C60".into(), name: "Ruy Lopez".into(), pgn: "1. e4 e5 2. Nf3 Nc6 3. Bb5".into() };
    BoardState::new(color, parse_opening(&e))
}

#[test]
fn status_lines() {
    let g = GameState::new();
    assert_eq!(compute_status(&g, PieceColor::White, 0, 5, false), "Your turn (White)");
    assert_eq!(compute_status(&g, PieceColor::Black, 0, 5, false), "Computer thinking (White)");
    assert_eq!(compute_status(&g, PieceColor::White, 5, 5, false), "Opening complete! Free play from here");
    assert_eq!(compute_status(&g, PieceColor::White, 0, 0, false), "Your turn (White)");
    assert_eq!(compute_status(&g, PieceColor::White, 0, 5, true), "Opponent deviated — free play from here");
    let mate = GameState::from_fen("r1bqkb1r/pppp1Qpp/2n2n2/4p3/2B1P3/8/PPPP1PPP/RNB1K1NR b KQkq - 0 4").unwrap();
    assert_eq!(compute_status(&mate, PieceColor::White, 0, 0, false), "Checkmate! White wins!");
    let stale = GameState::from_fen("7k/5Q2/6K1/8/8/8/8/8 b - - 0 1").unwrap();
    assert_eq!(compute_status(&stale, PieceColor::White, 0, 0, false), "Stalemate — draw!");
    let check = GameState::from_fen("4k3/8/8/8/8/8/8/4R2K b - - 0 1").unwrap();
    assert_eq!(compute_status(&check, PieceColor::Black, 0, 0, false), "Your turn (Black) — CHECK!");
}

#[test]
fn initial_status_lines() {
    let b = ruy_lopez_board(PieceColor::White);
    assert_eq!(initial_status(PieceColor::White, &b.opening), "Your turn (White) — follow the opening!");
    assert_eq!(initial_status(PieceColor::Black, &b.opening), "Computer thinking (White)");
    assert_eq!(initial_status(PieceColor::Black, &None), "White to move");
    assert_eq!(b.status, "Your turn (White) — follow the opening!");
}

#[test]
fn wrong_book_move_is_refused_and_hinted() {
    let mut b = ruy_lopez_board(PieceColor::White);
    let start = b.game.to_fen();
    // Select d2 and try d2-d4 instead of the book move e2-e4.
    b.click(sq(Square::D2));
    assert_eq!(b.selected, Some(sq(Square::D2)));
    b.click(sq(Square::D4));
    assert_eq!(b.game.to_fen(), start);
    assert_eq!(b.wrong_attempts, 1);
    assert_eq!(b.status, "Not the book move — try again");
    b.click(sq(Square::D2));
    b.click(sq(Square::D4));
    assert_eq!(b.hint, HintState::Piece);
    assert_eq!(b.status, "Try the highlighted piece");
    assert_eq!(b.hint_squares(), (Some(sq(Square::E2)), None));
    b.click(sq(Square::D2));
    b.click(sq(Square::D3));
    assert_eq!(b.hint, HintState::Full);
    assert_eq!(b.status, "Play the highlighted move");
    assert_eq!(b.hint_squares(), (Some(sq(Square::E2)), Some(sq(Square::E4))));
    assert_eq!(b.game.to_fen(), start);
}

#[test]
fn book_move_advances_and_computer_answers() {
    let mut b = ruy_lopez_board(PieceColor::White);
    assert_eq!(b.computer_move_due(), None);
    b.click(sq(Square::E2));
    b.click(sq(Square::E4));
    assert_eq!(b.op_move_idx, 1);
    assert_eq!(b.history.len(), 1);
    assert_eq!(b.status, "Computer thinking (Black)");
    let due = b.computer_move_due().unwrap();
    assert_eq!((due.from, due.to), (sq(Square::E7), sq(Square::E5)));
    let gen = b.generation;
    b.play_computer_move(gen, due);
    assert_eq!(b.op_move_idx, 2);
    assert_eq!(b.game.turn(), PieceColor::White);
    assert_eq!(b.status, "Your turn (White)");
    assert_eq!(b.move_counter(), "move 2/5");
}

#[test]
fn undo_restores_and_cancels_pending_computer_move() {
    let mut b = ruy_lopez_board(PieceColor::White);
    let start = b.game.to_fen();
    b.click(sq(Square::E2));
    b.click(sq(Square::E4));
    let gen = b.generation;
    let due = b.computer_move_due().unwrap();
    b.undo();
    assert_eq!(b.game.to_fen(), start);
    assert_eq!(b.op_move_idx, 0);
    assert!(b.history.is_empty());
    // The move scheduled before the undo is dropped.
    b.play_computer_move(gen, due);
    assert_eq!(b.game.to_fen(), start);
    // Undo with nothing recorded changes nothing.
    b.undo();
    assert_eq!(b.game.to_fen(), start);
}

#[test]
fn clicks_on_computer_turn_are_ignored() {
    let mut b = ruy_lopez_board(PieceColor::Black);
    b.click(sq(Square::E2));
    assert_eq!(b.selected, None);
    let due = b.computer_move_due().unwrap();
    assert_eq!((due.from, due.to), (sq(Square::E2), sq(Square::E4)));
}

#[test]
fn free_play_accepts_any_legal_move() {
    let mut b = BoardState::new(PieceColor::White, None);
    assert_eq!(b.status, "White to move");
    b.click(sq(Square::G1));
    assert_eq!(b.reachable.len(), 2);
    b.click(sq(Square::F3));
    assert_eq!(b.game.piece_at(sq(Square::F3)), Some((PieceColor::White, PieceRole::Knight)));
    assert_eq!(b.op_move_idx, 0);
    assert_eq!(b.move_counter(), "move 0/0");
}

#[test]
fn selection_moves_and_clears() {
    let mut b = BoardState::new(PieceColor::White, None);
    b.click(sq(Square::E2));
    b.click(sq(Square::D2));
    assert_eq!(b.selected, Some(sq(Square::D2)));
    b.click(sq(Square::E5));
    assert_eq!(b.selected, None);
    assert!(b.reachable.is_empty());
    // An enemy piece is not selected.
    b.click(sq(Square::E7));
    assert_eq!(b.selected, None);
}

#[test]
fn hint_button_cycles() {
    let mut b = ruy_lopez_board(PieceColor::White);
    assert_eq!(hint_label(b.hint), "💡 Hint");
    b.toggle_hint();
    assert_eq!(hint_label(b.hint), "💡 Piece");
    b.toggle_hint();
    assert_eq!(hint_label(b.hint), "💡 Move");
    b.toggle_hint();
    assert_eq!(b.hint, HintState::Off);
    assert_eq!(b.hint_squares(), (None, None));
}

#[test]
fn check_square_finds_the_king() {
    let mut b = BoardState::new(PieceColor::Black, None);
    b.game = GameState::from_fen("4k3/8/8/8/8/8/8/4R2K b - - 0 1").unwrap();
    assert_eq!(b.check_square(), Some(sq(Square::E8)));
    let b = BoardState::new(PieceColor::White, None);
    assert_eq!(b.check_square(), None);
}

#[test]
fn board_geometry() {
    assert_eq!(coords_to_sq(4, 1), sq(Square::E2));
    assert_eq!(sq_file_rank(sq(Square::E2)), (4, 1));
    assert_eq!(display_ranks(PieceColor::White), vec![7, 6, 5, 4, 3, 2, 1, 0]);
    assert_eq!(display_ranks(PieceColor::Black), vec![0, 1, 2, 3, 4, 5, 6, 7]);
    assert_eq!(display_files(PieceColor::Black), vec![7, 6, 5, 4, 3, 2, 1, 0]);
    assert_eq!(file_letter(0), 'a');
    assert_eq!(file_letter(7), 'h');
    assert!(!is_light_square(0, 0));
    assert!(is_light_square(1, 0));
}

#[test]
fn glyphs_and_shades() {
    assert_eq!(piece_glyph(PieceColor::White, PieceRole::King), "♔");
    assert_eq!(piece_glyph(PieceColor::Black, PieceRole::Pawn), "♟");
    assert_eq!(square_shade(true, true, true, true, true), SquareShade::Selected);
    assert_eq!(square_shade(false, true, true, false, false), SquareShade::Check);
    assert_eq!(square_shade(false, false, false, true, true), SquareShade::HintTo);
    assert_eq!(square_shade(false, false, false, false, false), SquareShade::Dark);
}

#[test]
fn status_line_from_plain_values() {
    let w = PieceColor::White;
    let b = PieceColor::Black;
    assert_eq!(status_line(Outcome::Checkmate { winner: b }, w, true, w, 0, 0, false), "Checkmate! Black wins!");
    assert_eq!(status_line(Outcome::Stalemate, w, false, w, 0, 0, false), "Stalemate — draw!");
    assert_eq!(status_line(Outcome::InProgress, w, false, w, 2, 5, true), "Opponent deviated — free play from here");
    assert_eq!(status_line(Outcome::InProgress, w, false, w, 5, 5, false), "Opening complete! Free play from here");
    assert_eq!(status_line(Outcome::InProgress, w, false, w, 7, 0, false), "Your turn (White)");
    assert_eq!(status_line(Outcome::InProgress, b, true, w, 1, 5, false), "Computer thinking (Black) — CHECK!");
    assert_eq!(status_line(Outcome::InProgress, b, true, b, 1, 5, false), "Your turn (Black) — CHECK!");
}

#[test]
fn king_square_finds_the_first_king_of_a_side() {
    let ps = vec![
        (4u8, PieceColor::White, PieceRole::King),
        (10u8, PieceColor::Black, PieceRole::Queen),
        (60u8, PieceColor::Black, PieceRole::King),
    ];
    assert_eq!(king_square(&ps, PieceColor::White), Some(4));
    assert_eq!(king_square(&ps, PieceColor::Black), Some(60));
    assert_eq!(king_square(&ps[1..2].to_vec(), PieceColor::Black), None);
}

#[test]
fn square_colours() {
    assert_eq!(shade_color(SquareShade::Selected), "#f6f669");
    assert_eq!(shade_color(SquareShade::Check), "#e63946");
    assert_eq!(shade_color(SquareShade::HintFrom), "#7b61ff");
    assert_eq!(shade_color(SquareShade::HintTo), "#a599ff");
    assert_eq!(shade_color(SquareShade::Light), "#f0d9b5");
    assert_eq!(shade_color(SquareShade::Dark), "#b58863");
}

#[test]
fn computer_moves_once_per_turn() {
    let mut b = ruy_lopez_board(PieceColor::Black);
    let due = b.computer_move_due().unwrap();
    let gen = b.generation;
    b.play_computer_move(gen, due);
    assert_eq!(b.op_move_idx, 1);
    assert_eq!(b.game.turn(), PieceColor::Black);
    assert_eq!(b.computer_move_due(), None);
    // A second wake-up of the same scheduled move finds the user's turn and does nothing.
    let fen = b.game.to_fen();
    b.play_computer_move(gen, due);
    assert_eq!(b.op_move_idx, 1);
    assert_eq!(b.game.to_fen(), fen);
}
