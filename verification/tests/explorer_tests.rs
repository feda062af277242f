use simple_chess::game::GameState;
use simple_chess::explorer::{may_avoid_top, total_games};
use simple_chess::explorer::{first_lookup_stage, next_lookup_step, LookupStage, LookupStep};
use simple_chess::explorer::{
    cache_key, explorer_pool, explorer_url, parse_uci_squares, pick_explorer_move, rating_to_band,
    urlencoding, weighted_pick, ExplorerMove, ExplorerResponse,
};
use shakmaty::Square;

fn mv(uci: &str, san: &str, white: u64, draws: u64, black: u64) -> ExplorerMove {
    ExplorerMove { uci: uci.into(), san: san.into(), white, draws, black }
}

#[test]
fn rating_band_mapping() {
    assert_eq!(rating_to_band(800), 1400);
    assert_eq!(rating_to_band(1200), 1400);
    assert_eq!(rating_to_band(1600), 1800);
    assert_eq!(rating_to_band(1800), 2000);
    assert_eq!(rating_to_band(2000), 2000);
    assert_eq!(rating_to_band(2200), 2200);
    assert_eq!(rating_to_band(2500), 2500);
}

#[test]
fn parse_uci_e2e4() {
    let (from, to) = parse_uci_squares("e2e4").unwrap();
    assert_eq!(from, Square::E2 as u8);
    assert_eq!(to, Square::E4 as u8);
}

#[test]
fn parse_uci_promotion() {
    let (from, to) = parse_uci_squares("e7e8q").unwrap();
    assert_eq!(from, Square::E7 as u8);
    assert_eq!(to, Square::E8 as u8);
}

#[test]
fn parse_uci_invalid() {
    assert!(parse_uci_squares("z9").is_none());
    assert!(parse_uci_squares("").is_none());
}

#[test]
fn pick_deterministic_on_native() {
    let resp = ExplorerResponse {
        moves: vec![
            mv("e2e4", "e4", 100, 50, 50),
            mv("d2d4", "d4", 200, 100, 100),
        ],
    };
    // The most popular move (d2d4 with total 400) is picked.
    let picked = pick_explorer_move(&resp, 1600).unwrap();
    assert_eq!(picked.uci, "d2d4");
}

#[test]
fn empty_response_returns_none() {
    let resp = ExplorerResponse { moves: vec![] };
    assert!(pick_explorer_move(&resp, 1600).is_none());
}

#[test]
fn total_adds_the_three_counts() {
    assert_eq!(mv("e2e4", "e4", 100, 50, 25).total(), 175);
}

#[test]
fn band_edges() {
    assert_eq!(rating_to_band(1399), 1400);
    assert_eq!(rating_to_band(1400), 1600);
    assert_eq!(rating_to_band(1599), 1600);
    assert_eq!(rating_to_band(1799), 1800);
    assert_eq!(rating_to_band(2099), 2000);
    assert_eq!(rating_to_band(2100), 2200);
    assert_eq!(rating_to_band(2349), 2200);
    assert_eq!(rating_to_band(2350), 2500);
    assert_eq!(rating_to_band(0), 1400);
}

#[test]
fn band_mapping_never_decreases() {
    let mut prev = rating_to_band(0);
    for r in 0..=3000u16 {
        let b = rating_to_band(r);
        assert!(b >= prev);
        prev = b;
    }
}

#[test]
fn cache_key_joins_fen_and_band() {
    assert_eq!(cache_key("8/8/8/8/8/8/8/8 w - - 0 1", 1800), "8/8/8/8/8/8/8/8 w - - 0 1|1800");
    assert_eq!(cache_key("x", 0), "x|0");
}

#[test]
fn urlencoding_escapes_spaces_and_slashes() {
    assert_eq!(urlencoding("rnbqkbnr/pppppppp w"), "rnbqkbnr%2Fpppppppp%20w");
    assert_eq!(urlencoding("abc"), "abc");
}

#[test]
fn explorer_url_builds_query() {
    assert_eq!(
        explorer_url("8/8 w", 2000),
        "https://explorer.lichess.ovh/lichess?fen=8%2F8%20w&ratings=2000&speeds=rapid,classical"
    );
}

#[test]
fn ties_keep_their_order() {
    let resp = ExplorerResponse {
        moves: vec![mv("a2a3", "a3", 1, 0, 0), mv("b2b3", "b3", 5, 0, 0), mv("c2c3", "c3", 3, 1, 1)],
    };
    // b2b3 and c2c3 are both played 5 times; the first of them wins.
    assert_eq!(pick_explorer_move(&resp, 1600).unwrap().uci, "b2b3");
}

#[test]
fn pool_drops_top_move_below_1600() {
    let resp = ExplorerResponse {
        moves: vec![mv("a2a3", "a3", 1, 0, 0), mv("b2b3", "b3", 9, 0, 0), mv("c2c3", "c3", 3, 0, 0)],
    };
    let pool = explorer_pool(&resp, 1200, true);
    let ucis: Vec<&str> = pool.iter().map(|m| m.uci.as_str()).collect();
    assert_eq!(ucis, vec!["c2c3", "a2a3"]);
    let full = explorer_pool(&resp, 1200, false);
    let ucis: Vec<&str> = full.iter().map(|m| m.uci.as_str()).collect();
    assert_eq!(ucis, vec!["b2b3", "c2c3", "a2a3"]);
    // At 1600 and above the top move always stays.
    assert_eq!(explorer_pool(&resp, 1600, true).len(), 3);
}

#[test]
fn weighted_pick_follows_running_counts() {
    let moves = vec![mv("a2a3", "a3", 2, 0, 0), mv("b2b3", "b3", 3, 0, 0)];
    assert_eq!(weighted_pick(&moves, 0).uci, "a2a3");
    assert_eq!(weighted_pick(&moves, 1).uci, "a2a3");
    assert_eq!(weighted_pick(&moves, 2).uci, "b2b3");
    assert_eq!(weighted_pick(&moves, 4).uci, "b2b3");
    // A draw past the end lands on the last move.
    assert_eq!(weighted_pick(&moves, 99).uci, "b2b3");
    // With no games at all the first move is taken.
    let zero = vec![mv("a2a3", "a3", 0, 0, 0), mv("b2b3", "b3", 0, 0, 0)];
    assert_eq!(weighted_pick(&zero, 7).uci, "a2a3");
}

#[test]
fn uci_rejects_bad_squares() {
    assert!(parse_uci_squares("i2e4").is_none());
    assert!(parse_uci_squares("e9e4").is_none());
    assert!(parse_uci_squares("e2e").is_none());
    assert_eq!(parse_uci_squares("a1h8"), Some((0, 63)));
}

#[test]
fn lookup_tries_local_storage_bundled_then_live() {
    assert_eq!(first_lookup_stage(true), LookupStage::LocalStorage);
    assert_eq!(first_lookup_stage(false), LookupStage::Bundled);
    assert_eq!(next_lookup_step(LookupStage::LocalStorage, false, true), LookupStep::Try { stage: LookupStage::Bundled });
    assert_eq!(next_lookup_step(LookupStage::Bundled, false, true), LookupStep::Try { stage: LookupStage::LiveApi });
    assert_eq!(next_lookup_step(LookupStage::Bundled, false, false), LookupStep::NoData);
    assert_eq!(next_lookup_step(LookupStage::LiveApi, false, true), LookupStep::NoData);
    assert_eq!(next_lookup_step(LookupStage::LocalStorage, true, true), LookupStep::Answer { save: false });
    assert_eq!(next_lookup_step(LookupStage::Bundled, true, false), LookupStep::Answer { save: false });
    assert_eq!(next_lookup_step(LookupStage::LiveApi, true, true), LookupStep::Answer { save: true });
}

#[test]
fn top_move_avoidance_needs_low_rating_and_choice() {
    assert!(may_avoid_top(800, 2));
    assert!(may_avoid_top(1599, 3));
    assert!(!may_avoid_top(1600, 3));
    assert!(!may_avoid_top(800, 1));
    assert!(!may_avoid_top(800, 0));
}

#[test]
fn total_games_adds_every_count() {
    assert_eq!(total_games(&vec![]), Some(0));
    assert_eq!(total_games(&vec![mv("e2e4", "e4", 100, 50, 50), mv("d2d4", "d4", 200, 100, 100)]), Some(600));
    assert_eq!(total_games(&vec![mv("e2e4", "e4", u64::MAX, 1, 0)]), None);
    assert_eq!(total_games(&vec![mv("e2e4", "e4", u64::MAX - 1, 0, 0), mv("d2d4", "d4", 1, 1, 0)]), None);
}

#[test]
fn uci_square_names_read_back() {
    let files = "abcdefgh".as_bytes();
    let ranks = "12345678".as_bytes();
    for a in 0u8..64 {
        for b in [0u8, 7, 12, 28, 36, 63, a] {
            let mut s = String::new();
            s.push(files[(a % 8) as usize] as char);
            s.push(ranks[(a / 8) as usize] as char);
            s.push(files[(b % 8) as usize] as char);
            s.push(ranks[(b / 8) as usize] as char);
            assert_eq!(parse_uci_squares(&s), Some((a, b)));
            s.push('q');
            assert_eq!(parse_uci_squares(&s), Some((a, b)));
        }
    }
    assert_eq!(parse_uci_squares("i1a1"), None);
    assert_eq!(parse_uci_squares("a0a1"), None);
    assert_eq!(parse_uci_squares("a1a9"), None);
}

#[test]
fn urlencoding_decodes_back() {
    let mut g = GameState::new();
    g.apply_move(12, 28);
    for fen in [GameState::new().to_fen(), g.to_fen(), "8/8/8/8/8/8/8/8 w - - 0 1".to_string()] {
        let enc = urlencoding(&fen);
        assert!(!enc.contains(' ') && !enc.contains('/'));
        assert_eq!(enc.replace("%2F", "/").replace("%20", " "), fen);
    }
}
