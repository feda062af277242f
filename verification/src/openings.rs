//! The opening book: rows of the lichess `chess-openings` TSV files, and
//! opening lines replayed from their PGN move text into concrete moves.

use vstd::prelude::*;
use crate::engine::{
    fen_after, legal_move_codes, legal_moves_in, play_legal_move, san_move_code, san_move_in,
    start_fen, start_fen_spec,
};
use crate::game::{
    click_choice, has_move, lemma_click_plays_code, lemma_queen_codes, lemma_some_move_is_playable, moves_of,
};
use crate::pieces::{move_of_code, role_from_code, role_of_code, MoveCode, PieceRole};
use crate::text::{
    char_vec_views, chars_of, lines, split_lines, split_words, string_of_range, string_views,
    words,
};

verus! {

/// One row of the opening book, split cheaply from a TSV line.
#[derive(Clone, Debug, PartialEq)]
pub struct OpeningEntry {
    /// ECO code, e.g. `C60`.
    pub eco: String,
    /// Opening name, e.g. `Ruy Lopez`.
    pub name: String,
    /// Move text, e.g. `1. e4 e5 2. Nf3 Nc6 3. Bb5`.
    pub pgn: String,
}

impl View for OpeningEntry {
    type V = (Seq<char>, Seq<char>, Seq<char>);

    open spec fn view(&self) -> (Seq<char>, Seq<char>, Seq<char>) {
        (self.eco@, self.name@, self.pgn@)
    }
}

/// One move of an opening line, by its squares.
#[derive(Clone, Copy, Debug, PartialEq, Eq, Structural)]
pub struct OpeningMove {
    pub from: u8,
    pub to: u8,
    /// The promotion piece, if the move promotes.
    pub promotion: Option<PieceRole>,
}

/// An opening with its line replayed into moves: index 0 is White's first
/// move, index 1 Black's first, and so on.
#[derive(Clone, Debug)]
pub struct Opening {
    pub eco: String,
    pub name: String,
    pub pgn: String,
    pub moves: Vec<OpeningMove>,
}

pub open spec fn entry_views(v: Seq<OpeningEntry>) -> Seq<(Seq<char>, Seq<char>, Seq<char>)> {
    v.map_values(|e: OpeningEntry| e@)
}

/// Index of the first `c` in `s` at or after `k`, or `-1`.
pub open spec fn find_char(s: Seq<char>, c: char, k: int) -> int
    decreases s.len() - k,
{
    if k < 0 || k >= s.len() {
        -1
    } else if s[k] == c {
        k
    } else {
        find_char(s, c, k + 1)
    }
}

/// The three fields of a TSV line: text before the first tab, between the
/// first and the second, and after the second (tabs included); `None` for a
/// line with fewer than two tabs. This is what `splitn(3, '\t')` yields.
pub open spec fn tsv_fields(line: Seq<char>) -> Option<(Seq<char>, Seq<char>, Seq<char>)> {
    let i = find_char(line, '\t', 0);
    let j = find_char(line, '\t', i + 1);
    if i < 0 || j < 0 {
        None
    } else {
        Some((line.subrange(0, i), line.subrange(i + 1, j), line.subrange(j + 1, line.len() as int)))
    }
}

/// The entries of a TSV text: every line after the header line that has two
/// tabs, in order.
pub open spec fn tsv_entries(tsv: Seq<char>) -> Seq<(Seq<char>, Seq<char>, Seq<char>)> {
    let ls = lines(tsv);
    let body = if ls.len() == 0 { ls } else { ls.drop_first() };
    body.filter_map(|l: Seq<char>| tsv_fields(l))
}

proof fn lemma_find_char_range(s: Seq<char>, c: char, k: int)
    ensures
        find_char(s, c, k) == -1 || (k <= find_char(s, c, k) < s.len() && s[find_char(s, c, k)] == c),
        forall|m: int| 0 <= k <= m < s.len() && (find_char(s, c, k) == -1 || m < find_char(s, c, k)) ==> s[m] != c,
    decreases s.len() - k,
{
    if k < 0 || k >= s.len() {
    } else if s[k] == c {
    } else {
        lemma_find_char_range(s, c, k + 1);
    }
}

/// Index of the first `c` in `s` at or after `k`, if any.
fn find_char_exec(s: &Vec<char>, c: char, k: usize) -> (res: Option<usize>)
    ensures
        match res {
            Some(i) => find_char(s@, c, k as int) == i && i < s.len(),
            None => find_char(s@, c, k as int) == -1,
        },
{
    let mut i = k;
    while i < s.len()
        invariant
            k <= i,
            find_char(s@, c, k as int) == find_char(s@, c, i as int),
        decreases s@.len() - i,
    {
        if s[i] == c {
            return Some(i);
        }
        i = i + 1;
    }
    None
}

/// Splits one TSV line into an entry, or `None` when it has fewer than two
/// tabs.
fn entry_of_line(line: &Vec<char>) -> (res: Option<OpeningEntry>)
    ensures
        match tsv_fields(line@) {
            Some(f) => res matches Some(e) && e@ == f,
            None => res is None,
        },
{
    proof {
        lemma_find_char_range(line@, '\t', 0);
    }
    let i = match find_char_exec(line, '\t', 0) {
        Some(i) => i,
        None => return None,
    };
    proof {
        lemma_find_char_range(line@, '\t', i + 1);
    }
    let j = match find_char_exec(line, '\t', i + 1) {
        Some(j) => j,
        None => return None,
    };
    let eco = string_of_range(line, 0, i);
    let name = string_of_range(line, i + 1, j);
    let pgn = string_of_range(line, j + 1, line.len());
    Some(OpeningEntry { eco, name, pgn })
}

/// Appends to `out` the entries of one TSV file: the header line is skipped,
/// and so is every line with fewer than two tabs.
pub fn parse_tsv(tsv: &str, out: &mut Vec<OpeningEntry>)
    ensures
        entry_views(final(out)@) == entry_views(old(out)@) + tsv_entries(tsv@),
{
    let cs = chars_of(tsv);
    let ls = split_lines(&cs);
    let ghost all = char_vec_views(ls@);
    let ghost body = if all.len() == 0 { all } else { all.drop_first() };
    let ghost start = entry_views(out@);
    let n = ls.len();
    let mut k: usize = 1;
    proof {
        if n == 0 {
            assert(body == all.subrange(0, 0));
        } else {
            assert(body == all.subrange(1, n as int));
        }
    }
    while k < n
        invariant
            1 <= k,
            n > 0 ==> k <= n,
            n == ls@.len(),
            all == char_vec_views(ls@),
            all == lines(tsv@),
            body == (if all.len() == 0 { all } else { all.drop_first() }),
            n > 0 ==> entry_views(out@) == start + body.take(k - 1).filter_map(|l: Seq<char>| tsv_fields(l)),
            n == 0 ==> entry_views(out@) == start,
        decreases n - k,
    {
        let line = &ls[k];
        assert(line@ == all[k as int]);
        assert(body[k - 1] == all[k as int]);
        assert(body.take(k as int).drop_last() == body.take(k - 1));
        let ghost prev = entry_views(out@);
        let ghost fm = |l: Seq<char>| tsv_fields(l);
        assert(body.take(k as int).filter_map(fm) == (match fm(body[k - 1]) {
            Some(x) => body.take(k - 1).filter_map(fm) + seq![x],
            None => body.take(k - 1).filter_map(fm),
        }));
        match entry_of_line(line) {
            Some(e) => {
                out.push(e);
                assert(entry_views(out@) == prev.push(e@));
                assert(start + body.take(k as int).filter_map(fm) =~= (start + body.take(k - 1).filter_map(fm)).push(e@));
            }
            None => {}
        }
        k = k + 1;
    }
    proof {
        if n > 0 {
            assert(body.take(n - 1) == body);
        } else {
            assert(body.filter_map(|l: Seq<char>| tsv_fields(l)) == Seq::<(Seq<char>, Seq<char>, Seq<char>)>::empty());
        }
    }
}

/// Where the five files of the opening book are served: `a.tsv` to `e.tsv`
/// under `./openings/`, in that order.
pub fn tsv_urls() -> (res: Vec<&'static str>)
    ensures
        res@.len() == 5,
        res@[0]@ == "./openings/a.tsv"@,
        res@[1]@ == "./openings/b.tsv"@,
        res@[2]@ == "./openings/c.tsv"@,
        res@[3]@ == "./openings/d.tsv"@,
        res@[4]@ == "./openings/e.tsv"@,
{
    let mut v: Vec<&'static str> = Vec::new();
    v.push("./openings/a.tsv");
    v.push("./openings/b.tsv");
    v.push("./openings/c.tsv");
    v.push("./openings/d.tsv");
    v.push("./openings/e.tsv");
    v
}

/// A word of move text that is no move: a move number (`1.`, `12...`) or a
/// game result (`*`, `1-0`, `0-1`, `1/2-1/2`).
pub open spec fn is_skipped_word(t: Seq<char>) -> bool {
    ||| (t.len() > 0 && t.last() == '.')
    ||| t == seq!['*']
    ||| t == seq!['1', '-', '0']
    ||| t == seq!['0', '-', '1']
    ||| t == seq!['1', '/', '2', '-', '1', '/', '2']
}

/// Index of the first occurrence of `m` in `ms` at or after `k`, or the
/// length of `ms`.
pub open spec fn first_index_of(ms: Seq<MoveCode>, m: MoveCode, k: int) -> int
    decreases ms.len() - k,
{
    if k < 0 || k >= ms.len() {
        ms.len() as int
    } else if ms[k] == m {
        k
    } else {
        first_index_of(ms, m, k + 1)
    }
}

pub open spec fn opening_move_of(from: u8, code: MoveCode) -> OpeningMove {
    OpeningMove {
        from,
        to: code.1,
        promotion: match code.2 {
            Some(r) => Some(role_of_code(r)),
            None => None,
        },
    }
}

/// Replays the words of move text from the position `fen`: move numbers and
/// results are skipped, every other word is read as SAN in the current
/// position and played. `None` as soon as a word is no legal move there.
pub open spec fn replay(fen: Seq<char>, ws: Seq<Seq<char>>) -> Option<Seq<OpeningMove>>
    decreases ws.len(),
{
    if ws.len() == 0 {
        Some(seq![])
    } else if is_skipped_word(ws[0]) {
        replay(fen, ws.drop_first())
    } else {
        match san_move_code(fen, ws[0]) {
            None => None,
            Some(code) => match code.0 {
                None => None,
                Some(from) => {
                    let next = fen_after(fen, first_index_of(legal_move_codes(fen), code, 0) as usize);
                    match replay(next, ws.drop_first()) {
                        None => None,
                        Some(rest) => Some(seq![opening_move_of(from, code)] + rest),
                    }
                },
            },
        }
    }
}

/// Every move that [`replay`] plays from `fen` is one of the legal moves of
/// the position in which it is played.
pub open spec fn replay_is_legal(fen: Seq<char>, ws: Seq<Seq<char>>) -> bool
    decreases ws.len(),
{
    if ws.len() == 0 {
        true
    } else if is_skipped_word(ws[0]) {
        replay_is_legal(fen, ws.drop_first())
    } else {
        match san_move_code(fen, ws[0]) {
            None => true,
            Some(code) => match code.0 {
                None => true,
                Some(from) => {
                    &&& legal_move_codes(fen).contains(code)
                    &&& replay_is_legal(
                        fen_after(fen, first_index_of(legal_move_codes(fen), code, 0) as usize),
                        ws.drop_first(),
                    )
                },
            },
        }
    }
}

/// Every move that [`replay`] plays from `fen` would also be accepted by a
/// click from its origin to its target ([`GameState::apply_move`]) in the
/// position in which the line plays it.
pub open spec fn replay_accepted(fen: Seq<char>, ws: Seq<Seq<char>>) -> bool
    decreases ws.len(),
{
    if ws.len() == 0 {
        true
    } else if is_skipped_word(ws[0]) {
        replay_accepted(fen, ws.drop_first())
    } else {
        match san_move_code(fen, ws[0]) {
            None => true,
            Some(code) => match code.0 {
                None => true,
                Some(from) => {
                    &&& click_choice(fen, from, code.1) is Some
                    &&& replay_accepted(
                        fen_after(fen, first_index_of(legal_move_codes(fen), code, 0) as usize),
                        ws.drop_first(),
                    )
                },
            },
        }
    }
}

/// Whether a move of a line promotes to something other than a queen.
pub open spec fn underpromotes(m: OpeningMove) -> bool {
    m.promotion matches Some(r) && r != PieceRole::Queen
}

/// Whether no move of `ms` is an underpromotion.
pub open spec fn no_underpromotion(ms: Seq<OpeningMove>) -> bool {
    forall|i: int| 0 <= i < ms.len() ==> !underpromotes(#[trigger] ms[i])
}

/// Whether clicking the moves of `ms` one after another from `fen` (each a
/// click from its origin to its target, as [`GameState::apply_move`] plays
/// it) is accepted every time.
pub open spec fn clicks_replay(fen: Seq<char>, ms: Seq<OpeningMove>) -> bool
    decreases ms.len(),
{
    if ms.len() == 0 {
        true
    } else {
        match click_choice(fen, ms[0].from, ms[0].to) {
            Some(i) => clicks_replay(fen_after(fen, i as usize), ms.drop_first()),
            None => false,
        }
    }
}

/// The moves of an opening's move text, played from the starting position;
/// `None` when a word is no legal move or the text holds no move at all.
pub open spec fn line_moves(pgn: Seq<char>) -> Option<Seq<OpeningMove>> {
    match replay(start_fen_spec(), words(pgn)) {
        Some(ms) => if ms.len() > 0 { Some(ms) } else { None },
        None => None,
    }
}

pub open spec fn prepend(acc: Seq<OpeningMove>, r: Option<Seq<OpeningMove>>) -> Option<Seq<OpeningMove>> {
    match r {
        Some(rest) => Some(acc + rest),
        None => None,
    }
}

proof fn lemma_first_index_of(ms: Seq<MoveCode>, m: MoveCode, k: int)
    requires
        0 <= k,
        exists|i: int| k <= i < ms.len() && ms[i] == m,
    ensures
        k <= first_index_of(ms, m, k) < ms.len(),
        ms[first_index_of(ms, m, k)] == m,
    decreases ms.len() - k,
{
    if ms[k] != m {
        let i = choose|i: int| k <= i < ms.len() && ms[i] == m;
        assert(i != k);
        lemma_first_index_of(ms, m, k + 1);
    }
}

proof fn lemma_first_index_of_bounds(ms: Seq<MoveCode>, m: MoveCode, k: int)
    requires
        0 <= k,
    ensures
        first_index_of(ms, m, k) == ms.len() || k <= first_index_of(ms, m, k) < ms.len(),
    decreases ms.len() - k,
{
    if k < ms.len() && ms[k] != m {
        lemma_first_index_of_bounds(ms, m, k + 1);
    }
}

/// Index of the first occurrence of `m` in `ms`.
pub fn index_of_code(ms: &Vec<MoveCode>, m: MoveCode) -> (res: usize)
    requires
        ms@.contains(m),
    ensures
        res == first_index_of(ms@, m, 0),
        res < ms@.len(),
        ms@[res as int] == m,
{
    proof {
        lemma_first_index_of(ms@, m, 0);
    }
    let mut i: usize = 0;
    while i < ms.len()
        invariant
            i <= ms@.len(),
            first_index_of(ms@, m, 0) == first_index_of(ms@, m, i as int),
            i <= first_index_of(ms@, m, 0) < ms@.len(),
        decreases ms@.len() - i,
    {
        let c = ms[i];
        if c.0 == m.0 && c.1 == m.1 && c.2 == m.2 {
            assert(c == m);
            return i;
        }
        assert(ms@[i as int] != m);
        proof {
            lemma_first_index_of_bounds(ms@, m, i + 1);
        }
        i = i + 1;
    }
    i
}

/// Whether a word of move text is a move number or a result.
pub fn skipped_word(w: &String) -> (res: bool)
    ensures
        res == is_skipped_word(w@),
{
    let cs = chars_of(w.as_str());
    let n = cs.len();
    if n > 0 && cs[n - 1] == '.' {
        return true;
    }
    if n == 1 {
        let r = cs[0] == '*';
        proof {
            if r {
                assert(cs@ =~= seq!['*']);
            } else {
                assert(cs@ != seq!['*']);
            }
        }
        return r;
    }
    if n == 3 {
        let r = cs[1] == '-' && ((cs[0] == '1' && cs[2] == '0') || (cs[0] == '0' && cs[2] == '1'));
        proof {
            if !r {
                assert(cs@ != seq!['1', '-', '0']);
                assert(cs@ != seq!['0', '-', '1']);
            } else if cs[0] == '1' {
                assert(cs@ =~= seq!['1', '-', '0']);
            } else {
                assert(cs@ =~= seq!['0', '-', '1']);
            }
        }
        return r;
    }
    if n == 7 {
        let r = cs[0] == '1' && cs[1] == '/' && cs[2] == '2' && cs[3] == '-' && cs[4] == '1'
            && cs[5] == '/' && cs[6] == '2';
        proof {
            if r {
                assert(cs@ =~= seq!['1', '/', '2', '-', '1', '/', '2']);
            } else {
                assert(cs@ != seq!['1', '/', '2', '-', '1', '/', '2']);
            }
        }
        return r;
    }
    proof {
        assert(cs@ != seq!['*']);
        assert(cs@ != seq!['1', '-', '0']);
        assert(cs@ != seq!['0', '-', '1']);
        assert(cs@ != seq!['1', '/', '2', '-', '1', '/', '2']);
    }
    false
}

/// Replays an opening's move text into moves (see [`line_moves`]).
fn parse_moves(pgn: &str) -> (res: Option<Vec<OpeningMove>>)
    ensures
        match line_moves(pgn@) {
            Some(ms) => res matches Some(v) && v@ == ms,
            None => res is None,
        },
        res is Some ==> replay_is_legal(start_fen_spec(), words(pgn@)),
        res is Some ==> replay_accepted(start_fen_spec(), words(pgn@)),
        res matches Some(v) ==> (no_underpromotion(v@) ==> clicks_replay(start_fen_spec(), v@)),
{
    let ws = split_words(pgn);
    let ghost all = words(pgn@);
    let mut fen = start_fen();
    let mut moves: Vec<OpeningMove> = Vec::new();
    let n = ws.len();
    proof {
        assert(all.skip(0) == all);
        if let Some(r) = replay(fen@, all) {
            assert(moves@ + r =~= r);
        }
        assert forall|r: Seq<OpeningMove>| clicks_replay(fen@, r) implies clicks_replay(start_fen_spec(), moves@ + r) by {
            assert(moves@ + r =~= r);
        }
    }
    for i in 0..n
        invariant
            n == ws@.len(),
            string_views(ws@) == all,
            all == words(pgn@),
            replay(start_fen_spec(), all) == prepend(moves@, replay(fen@, all.skip(i as int))),
            replay_is_legal(fen@, all.skip(i as int)) ==> replay_is_legal(start_fen_spec(), all),
            replay_accepted(fen@, all.skip(i as int)) ==> replay_accepted(start_fen_spec(), all),
            no_underpromotion(moves@) ==> forall|r: Seq<OpeningMove>| #[trigger] clicks_replay(fen@, r)
                ==> clicks_replay(start_fen_spec(), moves@ + r),
    {
        let w = &ws[i];
        assert(all.skip(i as int)[0] == w@);
        assert(all.skip(i as int).drop_first() == all.skip(i + 1));
        if !skipped_word(w) {
            let code = match san_move_in(fen.as_str(), w.as_str()) {
                Some(c) => c,
                None => return None,
            };
            let from = match code.0 {
                Some(f) => f,
                None => return None,
            };
            let legal = legal_moves_in(fen.as_str());
            let j = index_of_code(&legal, code);
            let next = play_legal_move(fen.as_str(), j);
            let mv = OpeningMove {
                from,
                to: code.1,
                promotion: match code.2 {
                    Some(r) => Some(role_from_code(r)),
                    None => None,
                },
            };
            proof {
                assert(mv == opening_move_of(from, code));
                let ghost rest = replay(next@, all.skip(i + 1));
                if let Some(r) = rest {
                    assert(moves@.push(mv) + r =~= moves@ + (seq![mv] + r));
                }
                let ms = moves_of(fen@);
                lemma_queen_codes(legal@);
                assert(ms[j as int] == move_of_code(legal@[j as int]));
                assert(ms[j as int].from == Some(from) && ms[j as int].to == code.1);
                assert(has_move(ms, from, code.1));
                lemma_some_move_is_playable(ms, from, code.1);
                let new_moves = moves@.push(mv);
                if no_underpromotion(new_moves) {
                    assert(!underpromotes(new_moves[moves@.len() as int]));
                    assert forall|k: int| 0 <= k < moves@.len() implies !underpromotes(#[trigger] moves@[k]) by {
                        assert(new_moves[k] == moves@[k]);
                    }
                    if let Some(r) = code.2 {
                        assert(r == 5u8);
                    }
                    lemma_click_plays_code(legal@, code, from, j as int);
                    assert forall|r: Seq<OpeningMove>| clicks_replay(next@, r) implies clicks_replay(start_fen_spec(), new_moves + r) by {
                        let t = seq![mv] + r;
                        assert(t[0] == mv);
                        assert(t.drop_first() =~= r);
                        assert(clicks_replay(fen@, t));
                        assert(new_moves + r =~= moves@ + t);
                    }
                }
            }
            moves.push(mv);
            fen = next;
        }
    }
    assert(all.skip(n as int) == Seq::<Seq<char>>::empty());
    proof {
        if no_underpromotion(moves@) {
            assert(clicks_replay(fen@, Seq::<OpeningMove>::empty()));
            assert(moves@ + Seq::<OpeningMove>::empty() =~= moves@);
        }
    }
    if moves.len() == 0 {
        None
    } else {
        Some(moves)
    }
}

/// The opening with its move text replayed into moves; `None` when the move
/// text holds a word that is no legal move in its position, or no move.
pub fn parse_opening(entry: &OpeningEntry) -> (res: Option<Opening>)
    ensures
        match line_moves(entry.pgn@) {
            Some(ms) => res matches Some(o) && o.moves@ == ms && o.eco@ == entry.eco@
                && o.name@ == entry.name@ && o.pgn@ == entry.pgn@,
            None => res is None,
        },
        res is Some ==> replay_is_legal(start_fen_spec(), words(entry.pgn@)),
        res is Some ==> replay_accepted(start_fen_spec(), words(entry.pgn@)),
        res matches Some(o) ==> (no_underpromotion(o.moves@) ==> clicks_replay(start_fen_spec(), o.moves@)),
{
    let moves = match parse_moves(entry.pgn.as_str()) {
        Some(ms) => ms,
        None => return None,
    };
    Some(Opening { eco: entry.eco.clone(), name: entry.name.clone(), pgn: entry.pgn.clone(), moves })
}

} // verus!
