use simple_chess::setup::start_pick;
use simple_chess::setup::group_description;
use simple_chess::openings::OpeningEntry;
use simple_chess::pieces::PieceColor;
use simple_chess::session::{new_game_pick, NewGamePick};
use simple_chess::setup::{
    action_btn_style, color_for_group, curated_openings, curated_search, featured_card_style,
    group_entries, is_caro_kann, is_italian_game, is_modern_defense, is_queens_gambit, request_answered,
    request_admission, request_panel, requests_left, GroupKey, RequestPanel, RequestStatus,
};

fn named(name: &str) -> OpeningEntry {
    OpeningEntry { eco: "X".into(), name: name.into(), pgn: "1. e4".into() }
}

#[test]
fn pack_membership_by_prefix() {
    assert!(is_queens_gambit(&named("Queen's Gambit Declined")));
    assert!(is_queens_gambit(&named("Slav Defense: Exchange")));
    assert!(is_queens_gambit(&named("Semi-Slav Defense")));
    assert!(!is_queens_gambit(&named("Zukertort Opening: Queen's Gambit Invitation")));
    assert!(is_modern_defense(&named("Pirc Defense")));
    assert!(!is_modern_defense(&named("Hungarian Opening: Reversed Modern Defense")));
    assert!(is_italian_game(&named("Italian Game: Evans Gambit")));
    assert!(is_caro_kann(&named("Caro-Kann Defense: Advance Variation")));
    assert!(!is_caro_kann(&named("Sicilian Defense")));
}

#[test]
fn pack_colors() {
    assert_eq!(color_for_group(&GroupKey::QueensGambit), PieceColor::White);
    assert_eq!(color_for_group(&GroupKey::ModernDefense), PieceColor::Black);
    assert_eq!(color_for_group(&GroupKey::ItalianGame), PieceColor::White);
    assert_eq!(color_for_group(&GroupKey::CaroKann), PieceColor::Black);
}

#[test]
fn group_entries_keep_book_order() {
    let all = vec![named("Slav Defense"), named("Italian Game"), named("Queen's Gambit Accepted")];
    let qg = group_entries(&all, GroupKey::QueensGambit);
    assert_eq!(qg.len(), 2);
    assert_eq!(qg[0].name, "Slav Defense");
    assert_eq!(qg[1].name, "Queen's Gambit Accepted");
    assert!(group_entries(&all, GroupKey::CaroKann).is_empty());
}

#[test]
fn curated_search_is_case_insensitive() {
    let list = curated_openings();
    assert_eq!(list.len(), 10);
    assert!(curated_search(&list, "").is_none());
    let hits = curated_search(&list, "DEFENSE").unwrap();
    assert_eq!(hits, vec![1, 2, 4, 5, 6, 7]);
    assert_eq!(curated_search(&list, "gambit").unwrap(), vec![0]);
    assert!(curated_search(&list, "xyz").unwrap().is_empty());
}

#[test]
fn request_admission_decisions() {
    assert_eq!(request_admission(false, true, 2), RequestStatus::QueueClosed);
    assert_eq!(request_admission(true, false, 2), RequestStatus::QueueClosed);
    assert_eq!(request_admission(true, true, 0), RequestStatus::RateLimited);
    assert_eq!(request_admission(true, true, 1), RequestStatus::Submitting);
    assert_eq!(request_answered(Ok(())), RequestStatus::Success);
    assert_eq!(request_answered(Err("HTTP 500".into())), RequestStatus::Error("HTTP 500".into()));
    assert_eq!(requests_left(0), 2);
    assert_eq!(requests_left(1), 1);
    assert_eq!(requests_left(5), 0);
}

#[test]
fn request_panel_messages() {
    assert_eq!(request_panel(&RequestStatus::Success, true, true, 2, false), RequestPanel::Submitted);
    assert_eq!(request_panel(&RequestStatus::Idle, true, false, 2, false), RequestPanel::Closed);
    assert_eq!(request_panel(&RequestStatus::Idle, true, true, 0, false), RequestPanel::RateLimited);
    assert_eq!(
        request_panel(&RequestStatus::Idle, true, true, 1, true),
        RequestPanel::Offer { remaining: 1, enabled: false }
    );
    assert_eq!(
        request_panel(&RequestStatus::Error("x".into()), true, true, 1, false),
        RequestPanel::Failed("x".into())
    );
}

#[test]
fn styles() {
    assert!(featured_card_style(true).contains("border:2px solid #c9a96e; background:#8b4a1a;"));
    assert!(featured_card_style(false).contains("border:2px solid #6b3a2a; background:#2a1a12;"));
    assert!(action_btn_style(false).ends_with("opacity:0.4;"));
    assert!(action_btn_style(true).starts_with("background:#6b3a2a; color:#f0d9b5;"));
}

#[test]
fn new_game_never_repeats_the_line() {
    assert_eq!(new_game_pick(1, 0, 0), NewGamePick::Keep);
    assert_eq!(new_game_pick(3, 1, 1), NewGamePick::DrawAgain);
    assert_eq!(new_game_pick(3, 1, 2), NewGamePick::Take(2));
}

#[test]
fn pack_descriptions() {
    assert!(group_description(GroupKey::QueensGambit).starts_with("★ Queen's Gambit Pack — randomly selects"));
    assert!(group_description(GroupKey::ModernDefense).contains("Pirc Defense (...d6)"));
    assert!(group_description(GroupKey::ItalianGame).ends_with("A different line is chosen each game."));
    assert!(group_description(GroupKey::CaroKann).contains("(Advance, Classical, Exchange)"));
}

#[test]
fn start_pick_draws_a_line_of_the_pack() {
    let entries = vec![
        OpeningEntry { eco: "D30".into(), name: "Queen's Gambit Declined".into(), pgn: "1. d4 d5 2. c4 e6".into() },
        OpeningEntry { eco: "X00".into(), name: "Queen's Gambit Broken".into(), pgn: "1. d4 d5 2. Zz9".into() },
    ];
    let (color, opening, kept, idx) = start_pick(entries.clone(), GroupKey::QueensGambit, 0).unwrap();
    assert_eq!(color, PieceColor::White);
    assert_eq!(opening.name, "Queen's Gambit Declined");
    assert_eq!(opening.moves.len(), 4);
    assert_eq!(kept, entries);
    assert_eq!(idx, 0);
    assert!(start_pick(entries.clone(), GroupKey::QueensGambit, 1).is_none());
    assert!(start_pick(entries, GroupKey::QueensGambit, 2).is_none());
    assert!(start_pick(vec![], GroupKey::CaroKann, 0).is_none());
}
