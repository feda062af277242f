use simple_chess::game::GameState as Game;
use simple_chess::openings::skipped_word;
use simple_chess::openings::index_of_code;
use simple_chess::openings::tsv_urls;
use simple_chess::openings::{parse_opening, parse_tsv, OpeningEntry};
use simple_chess::pieces::PieceRole;
use shakmaty::Square;

fn sq(s: Square) -> u8 {
    s as u8
}

fn entry(eco: &str, name: &str, pgn: &str) -> OpeningEntry {
    OpeningEntry { eco: eco.to_string(), name: name.to_string(), pgn: pgn.to_string() }
}

#[test]
fn parse_single_move_opening() {
    let e = entry("A00", "Amar Opening", "1. Nh3");
    let opening = parse_opening(&e).expect("should parse");
    assert_eq!(opening.moves.len(), 1);
    assert_eq!(opening.moves[0].from, sq(Square::G1));
    assert_eq!(opening.moves[0].to, sq(Square::H3));
}

#[test]
fn parse_ruy_lopez() {
    let e = entry("C60", "Ruy Lopez", "1. e4 e5 2. Nf3 Nc6 3. Bb5");
    let opening = parse_opening(&e).expect("should parse");
    assert_eq!(opening.moves.len(), 5);
    assert_eq!(opening.moves[0].from, sq(Square::E2));
    assert_eq!(opening.moves[0].to, sq(Square::E4));
    assert_eq!(opening.moves[4].from, sq(Square::F1));
    assert_eq!(opening.moves[4].to, sq(Square::B5));
}

#[test]
fn invalid_pgn_returns_none() {
    let e = entry("X00", "Bad", "1. Zz99");
    assert!(parse_opening(&e).is_none());
}

#[test]
fn qg_canonical_move_sequence() {
    let cases = [
        ("Queen's Gambit Declined", "D30", "1. d4 d5 2. c4 e6"),
        ("Queen's Gambit Accepted", "D20", "1. d4 d5 2. c4 dxc4"),
        ("Slav Defense", "D10", "1. d4 d5 2. c4 c6"),
        ("Semi-Slav Defense", "D43", "1. d4 d5 2. c4 c6 3. Nf3 Nf6 4. Nc3 e6"),
    ];
    for (name, eco, pgn) in cases {
        let opening = parse_opening(&entry(eco, name, pgn)).expect(name);
        assert_eq!(opening.moves[0].from, sq(Square::D2), "{name}  move 0 from");
        assert_eq!(opening.moves[0].to, sq(Square::D4), "{name}  move 0 to");
        assert_eq!(opening.moves[1].from, sq(Square::D7), "{name}  move 1 from");
        assert_eq!(opening.moves[1].to, sq(Square::D5), "{name}  move 1 to");
        assert_eq!(opening.moves[2].from, sq(Square::C2), "{name}  move 2 from");
        assert_eq!(opening.moves[2].to, sq(Square::C4), "{name}  move 2 to");
    }
}

#[test]
fn qg_accepted_black_captures_c4() {
    let e = entry("D20", "Queen's Gambit Accepted", "1. d4 d5 2. c4 dxc4");
    let opening = parse_opening(&e).unwrap();
    assert_eq!(opening.moves.len(), 4, "QGA should have 4 half-moves");
    assert_eq!(opening.moves[3].from, sq(Square::D5), "dxc4 should start on d5");
    assert_eq!(opening.moves[3].to, sq(Square::C4), "dxc4 should land on c4");
}

#[test]
fn modern_defense_black_plays_g6_first() {
    let cases = [
        ("Modern Defense vs 1.e4", "B06", "1. e4 g6 2. d4 Bg7"),
        ("Modern Defense vs 1.d4", "A41", "1. d4 g6 2. c4 Bg7"),
        ("Modern Defense vs 1.Nf3", "A04", "1. Nf3 g6 2. d4 Bg7"),
    ];
    for (name, eco, pgn) in cases {
        let opening = parse_opening(&entry(eco, name, pgn)).expect(name);
        let black_first = &opening.moves[1];
        assert_eq!(black_first.from, sq(Square::G7), "{name}  Black g6 should start on g7");
        assert_eq!(black_first.to, sq(Square::G6), "{name}  Black's first move should be g6");
        if opening.moves.len() >= 4 {
            let black_second = &opening.moves[3];
            assert_eq!(black_second.from, sq(Square::F8), "{name}  Bg7 should start on f8");
            assert_eq!(black_second.to, sq(Square::G7), "{name}  Bg7 should land on g7");
        }
    }
}

#[test]
fn italian_game_canonical_move_sequence() {
    let cases = [
        ("Italian Game", "C50", "1. e4 e5 2. Nf3 Nc6 3. Bc4"),
        ("Italian Game: Giuoco Piano", "C53", "1. e4 e5 2. Nf3 Nc6 3. Bc4 Bc5"),
        ("Italian Game: Evans Gambit", "C51", "1. e4 e5 2. Nf3 Nc6 3. Bc4 Bc5 4. b4"),
        ("Italian Game: Two Knights Defense", "C55", "1. e4 e5 2. Nf3 Nc6 3. Bc4 Nf6"),
    ];
    for (name, eco, pgn) in cases {
        let opening = parse_opening(&entry(eco, name, pgn)).expect(name);
        assert_eq!(opening.moves[0].from, sq(Square::E2), "{name} move 0 from");
        assert_eq!(opening.moves[0].to, sq(Square::E4), "{name} move 0 to");
        assert_eq!(opening.moves[1].from, sq(Square::E7), "{name} move 1 from");
        assert_eq!(opening.moves[1].to, sq(Square::E5), "{name} move 1 to");
        assert_eq!(opening.moves[2].from, sq(Square::G1), "{name} move 2 from");
        assert_eq!(opening.moves[2].to, sq(Square::F3), "{name} move 2 to");
        assert_eq!(opening.moves[3].from, sq(Square::B8), "{name} move 3 from");
        assert_eq!(opening.moves[3].to, sq(Square::C6), "{name} move 3 to");
        assert_eq!(opening.moves[4].from, sq(Square::F1), "{name} move 4 from");
        assert_eq!(opening.moves[4].to, sq(Square::C4), "{name} move 4 to");
    }
}

#[test]
fn parse_opening_copies_the_entry() {
    let e = entry("C60", "Ruy Lopez", "1. e4 e5 2. Nf3 Nc6 3. Bb5");
    let o = parse_opening(&e).unwrap();
    assert_eq!(o.eco, "C60");
    assert_eq!(o.name, "Ruy Lopez");
    assert_eq!(o.pgn, "1. e4 e5 2. Nf3 Nc6 3. Bb5");
}

#[test]
fn results_and_move_numbers_are_skipped() {
    let o = parse_opening(&entry("A", "B", "1. e4 e5 2. Nf3 1-0")).unwrap();
    assert_eq!(o.moves.len(), 3);
    let o = parse_opening(&entry("A", "B", "1.\te4  *")).unwrap();
    assert_eq!(o.moves.len(), 1);
    assert!(parse_opening(&entry("A", "B", "1. 1/2-1/2")).is_none());
    assert!(parse_opening(&entry("A", "B", "")).is_none());
}

#[test]
fn illegal_second_move_fails_the_line() {
    assert!(parse_opening(&entry("A", "B", "1. e4 e4")).is_none());
}

#[test]
fn check_suffix_and_promotion_are_read() {
    let o = parse_opening(&entry("A", "B", "1. e4 f5 2. Qh5+")).unwrap();
    assert_eq!(o.moves[2].from, sq(Square::D1));
    assert_eq!(o.moves[2].to, sq(Square::H5));
    assert_eq!(o.moves[2].promotion, None);
    let line = "1. e4 d5 2. exd5 c6 3. dxc6 Nf6 4. cxb7 Nbd7 5. bxa8=N";
    let o = parse_opening(&entry("A", "B", line)).unwrap();
    assert_eq!(o.moves[8].promotion, Some(PieceRole::Knight));
    assert_eq!(o.moves[8].to, sq(Square::A8));
}

#[test]
fn tsv_rows_become_entries() {
    let tsv = "eco\tname\tpgn\nA00\tAmar Opening\t1. Nh3\r\nbroken line\nB00\tKing's Pawn\t1. e4\textra\n";
    let mut out = Vec::new();
    parse_tsv(tsv, &mut out);
    assert_eq!(out.len(), 2);
    assert_eq!(out[0], OpeningEntry { eco: "A00".into(), name: "Amar Opening".into(), pgn: "1. Nh3".into() });
    assert_eq!(out[1].eco, "B00");
    assert_eq!(out[1].pgn, "1. e4\textra");
}

#[test]
fn tsv_header_only_or_empty() {
    let mut out = Vec::new();
    parse_tsv("eco\tname\tpgn", &mut out);
    parse_tsv("", &mut out);
    assert!(out.is_empty());
    // Entries are appended after what is already there.
    out.push(OpeningEntry { eco: "Z".into(), name: "Z".into(), pgn: "Z".into() });
    parse_tsv("h\nC00\tFrench Defense\t1. e4 e6", &mut out);
    assert_eq!(out.len(), 2);
    assert_eq!(out[1].name, "French Defense");
}

#[test]
fn skipped_words_are_numbers_and_results() {
    for w in ["1.", "12...", "*", "1-0", "0-1", "1/2-1/2", "."] {
        assert!(skipped_word(&w.to_string()), "{w} should be skipped");
    }
    for w in ["e4", "Nf3", "O-O", "1", "1-1", "0-0", "1/2", "", "1.e4"] {
        assert!(!skipped_word(&w.to_string()), "{w} should be read as a move");
    }
}

#[test]
fn index_of_code_finds_the_first_occurrence() {
    let codes = vec![(Some(12u8), 28u8, None), (Some(6u8), 21u8, None), (Some(12u8), 28u8, None), (Some(52u8), 60u8, Some(5u8))];
    assert_eq!(index_of_code(&codes, (Some(12), 28, None)), 0);
    assert_eq!(index_of_code(&codes, (Some(6), 21, None)), 1);
    assert_eq!(index_of_code(&codes, (Some(52), 60, Some(5))), 3);
}

#[test]
fn book_files_are_served_under_openings() {
    assert_eq!(tsv_urls(), vec!["./openings/a.tsv", "./openings/b.tsv", "./openings/c.tsv", "./openings/d.tsv", "./openings/e.tsv"]);
}

#[test]
fn parsed_lines_are_accepted_by_apply_move() {
    for pgn in [
        "1. e4 e5 2. Nf3 Nc6 3. Bb5",
        "1. d4 d5 2. c4 c6 3. Nf3 Nf6 4. Nc3 e6",
        "1. e4 g6 2. d4 Bg7",
        "1. e4 e5 2. Nf3 Nc6 3. Bc4 Bc5 4. b4",
        "1. e4 e5 2. Nf3 Nf6 3. Nxe5 d6 4. Nf3 Nxe4 5. d4 d5 6. Bd3 Be7 7. O-O",
    ] {
        let o = parse_opening(&entry("X00", "Line", pgn)).expect("line parses");
        let mut g = Game::new();
        for m in &o.moves {
            assert!(g.apply_move(m.from, m.to), "{pgn}: {m:?} refused");
        }
    }
}
