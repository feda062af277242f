//! Explorer data (how often each move was played from a position) and the
//! choice of the opponent's move from it.

use vstd::prelude::*;
use vstd::string::{StringExecFns, StringSliceAdditionalSpecFns};
use vstd::utf8::is_char_boundary;
use crate::text::push_char;

verus! {

/// A candidate move with the number of games won by White, drawn, and won by
/// Black after it.
#[derive(Clone, Debug)]
pub struct ExplorerMove {
    pub uci: String,
    pub san: String,
    pub white: u64,
    pub draws: u64,
    pub black: u64,
}

/// The part of an explorer answer that the trainer reads: its moves.
#[derive(Clone, Debug)]
pub struct ExplorerResponse {
    pub moves: Vec<ExplorerMove>,
}

/// An explorer move as plain values: UCI, SAN, White wins, draws, Black wins.
pub type ExplorerMoveView = (Seq<char>, Seq<char>, u64, u64, u64);

impl View for ExplorerMove {
    type V = ExplorerMoveView;

    open spec fn view(&self) -> ExplorerMoveView {
        (self.uci@, self.san@, self.white, self.draws, self.black)
    }
}

pub open spec fn move_views(v: Seq<ExplorerMove>) -> Seq<ExplorerMoveView> {
    v.map_values(|m: ExplorerMove| m@)
}

/// Number of games in which the move was played.
pub open spec fn total_of(m: ExplorerMoveView) -> int {
    m.2 + m.3 + m.4
}

/// Every move's game count fits in a `u64`.
pub open spec fn totals_fit(s: Seq<ExplorerMoveView>) -> bool {
    forall|i: int| 0 <= i < s.len() ==> total_of(#[trigger] s[i]) <= u64::MAX
}

impl ExplorerMove {
    /// Total number of games in which this move was played.
    pub fn total(&self) -> (res: u64)
        requires
            total_of(self@) <= u64::MAX,
        ensures
            res == total_of(self@),
    {
        self.white + self.draws + self.black
    }

    /// A copy of this move.
    pub fn duplicate(&self) -> (res: ExplorerMove)
        ensures
            res@ == self@,
    {
        ExplorerMove {
            uci: self.uci.clone(),
            san: self.san.clone(),
            white: self.white,
            draws: self.draws,
            black: self.black,
        }
    }
}

/// The explorer rating band for a slider rating.
pub open spec fn band_of(rating: u16) -> u16 {
    if rating <= 1399 {
        1400
    } else if rating <= 1599 {
        1600
    } else if rating <= 1799 {
        1800
    } else if rating <= 2099 {
        2000
    } else if rating <= 2349 {
        2200
    } else {
        2500
    }
}

/// Maps a slider rating (800 to 2500) to an explorer rating band: up to
/// 1399 gives 1400, up to 1599 gives 1600, up to 1799 gives 1800, up to 2099
/// gives 2000, up to 2349 gives 2200, and above that 2500.
pub fn rating_to_band(rating: u16) -> (res: u16)
    ensures
        res == band_of(rating),
{
    if rating <= 1399 {
        1400
    } else if rating <= 1599 {
        1600
    } else if rating <= 1799 {
        1800
    } else if rating <= 2099 {
        2000
    } else if rating <= 2349 {
        2200
    } else {
        2500
    }
}

/// A higher rating never maps to a lower band.
pub proof fn band_is_monotone(a: u16, b: u16)
    requires
        a <= b,
    ensures
        band_of(a) <= band_of(b),
{
}

/// Every band is one the explorer accepts: 1400, 1600, 1800, 2000, 2200 or
/// 2500.
pub proof fn band_is_an_explorer_band(r: u16)
    ensures
        band_of(r) == 1400 || band_of(r) == 1600 || band_of(r) == 1800 || band_of(r) == 2000
            || band_of(r) == 2200 || band_of(r) == 2500,
{
}

/// The decimal digit for `d < 10`.
pub open spec fn digit_char(d: nat) -> char {
    if d == 0 {
        '0'
    } else if d == 1 {
        '1'
    } else if d == 2 {
        '2'
    } else if d == 3 {
        '3'
    } else if d == 4 {
        '4'
    } else if d == 5 {
        '5'
    } else if d == 6 {
        '6'
    } else if d == 7 {
        '7'
    } else if d == 8 {
        '8'
    } else {
        '9'
    }
}

fn digit(d: u64) -> (res: char)
    requires
        d < 10,
    ensures
        res == digit_char(d as nat),
{
    if d == 0 {
        '0'
    } else if d == 1 {
        '1'
    } else if d == 2 {
        '2'
    } else if d == 3 {
        '3'
    } else if d == 4 {
        '4'
    } else if d == 5 {
        '5'
    } else if d == 6 {
        '6'
    } else if d == 7 {
        '7'
    } else if d == 8 {
        '8'
    } else {
        '9'
    }
}

/// The decimal numeral of `n`, without leading zeros.
pub open spec fn decimal(n: nat) -> Seq<char>
    decreases n,
{
    if n < 10 {
        seq![digit_char(n)]
    } else {
        decimal(n / 10).push(digit_char(n % 10))
    }
}

/// Appends the decimal numeral of `n` to `s`.
pub fn push_decimal(s: &mut String, n: u64)
    ensures
        final(s)@ == old(s)@ + decimal(n as nat),
    decreases n,
{
    if n >= 10 {
        push_decimal(s, n / 10);
    }
    push_char(s, digit(n % 10));
    proof {
        if n < 10 {
            assert(decimal(n as nat) == seq![digit_char(n as nat)]);
        }
    }
}

/// Key of a cached explorer answer: the FEN, `|`, and the band in decimal.
pub fn cache_key(fen: &str, band: u16) -> (res: String)
    ensures
        res@ == fen@ + seq!['|'] + decimal(band as nat),
{
    let mut s = fen.to_owned();
    push_char(&mut s, '|');
    push_decimal(&mut s, band as u64);
    s
}

/// `c` as it stands in a URL query: a space as `%20`, `/` as `%2F`.
pub open spec fn url_char(c: char) -> Seq<char> {
    if c == ' ' {
        seq!['%', '2', '0']
    } else if c == '/' {
        seq!['%', '2', 'F']
    } else {
        seq![c]
    }
}

/// `s` with every space and `/` percent-encoded.
pub open spec fn url_encoded(s: Seq<char>) -> Seq<char>
    decreases s.len(),
{
    if s.len() == 0 {
        seq![]
    } else {
        url_encoded(s.drop_last()) + url_char(s.last())
    }
}

/// Percent-encodes the spaces and slashes of a FEN for a URL query.
pub fn urlencoding(s: &str) -> (res: String)
    ensures
        res@ == url_encoded(s@),
{
    let cs = crate::text::chars_of(s);
    let mut out = String::new();
    let n = cs.len();
    for i in 0..n
        invariant
            n == cs@.len(),
            cs@ == s@,
            out@ == url_encoded(cs@.take(i as int)),
    {
        let c = cs[i];
        assert(cs@.take(i + 1).drop_last() == cs@.take(i as int));
        if c == ' ' {
            push_char(&mut out, '%');
            push_char(&mut out, '2');
            push_char(&mut out, '0');
        } else if c == '/' {
            push_char(&mut out, '%');
            push_char(&mut out, '2');
            push_char(&mut out, 'F');
        } else {
            push_char(&mut out, c);
        }
        assert(out@ == url_encoded(cs@.take(i as int)) + url_char(c));
    }
    assert(cs@.take(n as int) == cs@);
    out
}

/// Percent-decoding of the two escapes that [`url_encoded`] writes: `%20`
/// back to a space and `%2F` back to `/`, read from the end.
pub open spec fn url_decoded(t: Seq<char>) -> Seq<char>
    decreases t.len(),
{
    if t.len() == 0 {
        seq![]
    } else if t.len() >= 3 && t[t.len() - 3] == '%' && t[t.len() - 2] == '2' && t.last() == '0' {
        url_decoded(t.subrange(0, t.len() - 3)).push(' ')
    } else if t.len() >= 3 && t[t.len() - 3] == '%' && t[t.len() - 2] == '2' && t.last() == 'F' {
        url_decoded(t.subrange(0, t.len() - 3)).push('/')
    } else {
        url_decoded(t.drop_last()).push(t.last())
    }
}

proof fn lemma_url_encoded_shape(s: Seq<char>)
    requires
        !s.contains('%'),
    ensures
        !url_encoded(s).contains(' '),
        !url_encoded(s).contains('/'),
        url_encoded(s).len() > 0 ==> url_encoded(s).last() != '%',
        url_encoded(s).len() >= s.len(),
    decreases s.len(),
{
    if s.len() > 0 {
        let p = s.drop_last();
        assert forall|c: char| p.contains(c) implies s.contains(c) by {
            let k = choose|k: int| 0 <= k < p.len() && p[k] == c;
            assert(s[k] == c);
        }
        lemma_url_encoded_shape(p);
        let e = url_encoded(p);
        let u = url_char(s.last());
        assert(s.contains(s.last())) by {
            assert(s[s.len() - 1] == s.last());
        }
        assert(url_encoded(s) == e + u);
        assert forall|c: char| (e + u).contains(c) implies c != ' ' && c != '/' by {
            let k = choose|k: int| 0 <= k < (e + u).len() && (e + u)[k] == c;
            if k < e.len() {
                assert(e[k] == c);
                assert(e.contains(c));
            } else {
                assert(u[k - e.len()] == c);
            }
        }
    }
}

/// Decoding gives back what was encoded: for a text without `%` (as a FEN
/// is), the encoded text holds no space and no `/`, and percent-decoding it
/// gives the text again.
pub proof fn url_encoding_round_trip(s: Seq<char>)
    requires
        !s.contains('%'),
    ensures
        url_decoded(url_encoded(s)) == s,
        !url_encoded(s).contains(' '),
        !url_encoded(s).contains('/'),
    decreases s.len(),
{
    lemma_url_encoded_shape(s);
    if s.len() > 0 {
        let p = s.drop_last();
        let c = s.last();
        assert forall|x: char| p.contains(x) implies s.contains(x) by {
            let k = choose|k: int| 0 <= k < p.len() && p[k] == x;
            assert(s[k] == x);
        }
        assert(s.contains(c)) by {
            assert(s[s.len() - 1] == c);
        }
        url_encoding_round_trip(p);
        lemma_url_encoded_shape(p);
        let e = url_encoded(p);
        let t = url_encoded(s);
        assert(t == e + url_char(c));
        if c == ' ' {
            assert(t.subrange(0, t.len() - 3) == e);
        } else if c == '/' {
            assert(t.subrange(0, t.len() - 3) == e);
        } else {
            assert(t == e.push(c));
            assert(t.drop_last() == e);
            if t.len() >= 3 && t[t.len() - 3] == '%' && t[t.len() - 2] == '2' {
                assert(e.last() == t[t.len() - 2]);
                assert(e.len() > 0);
                if e.len() >= 2 {
                    assert(e[e.len() - 2] == '%');
                }
                assert(false) by {
                    // the character before the last of `e` would be `%`,
                    // which only ends an encoded text when it is the last
                    lemma_percent_only_in_escapes(p);
                }
            }
        }
    }
}

/// In an encoded text without a raw `%`, a `%` is always followed by `2`
/// and then `0` or `F`.
proof fn lemma_percent_only_in_escapes(s: Seq<char>)
    requires
        !s.contains('%'),
    ensures
        forall|k: int| 0 <= k < url_encoded(s).len() && #[trigger] url_encoded(s)[k] == '%' ==> k + 2 < url_encoded(s).len()
            && url_encoded(s)[k + 1] == '2'
            && (url_encoded(s)[k + 2] == '0' || url_encoded(s)[k + 2] == 'F'),
    decreases s.len(),
{
    if s.len() > 0 {
        let p = s.drop_last();
        assert forall|x: char| p.contains(x) implies s.contains(x) by {
            let k = choose|k: int| 0 <= k < p.len() && p[k] == x;
            assert(s[k] == x);
        }
        assert(s.contains(s.last())) by {
            assert(s[s.len() - 1] == s.last());
        }
        lemma_percent_only_in_escapes(p);
        let e = url_encoded(p);
        let u = url_char(s.last());
        assert(url_encoded(s) == e + u);
        assert forall|k: int| 0 <= k < (e + u).len() && #[trigger] (e + u)[k] == '%' implies k + 2 < (e + u).len()
            && (e + u)[k + 1] == '2' && ((e + u)[k + 2] == '0' || (e + u)[k + 2] == 'F') by {
            if k < e.len() {
                assert(e[k] == '%');
            }
        }
    }
}

/// The explorer query for a position and band: rapid and classical games of
/// the lichess database.
pub fn explorer_url(fen: &str, band: u16) -> (res: String)
    ensures
        res@ == "https://explorer.lichess.ovh/lichess?fen="@ + url_encoded(fen@) + "&ratings="@
            + decimal(band as nat) + "&speeds=rapid,classical"@,
{
    let mut s = "https://explorer.lichess.ovh/lichess?fen=".to_owned();
    let enc = urlencoding(fen);
    s.append(enc.as_str());
    s.append("&ratings=");
    push_decimal(&mut s, band as u64);
    s.append("&speeds=rapid,classical");
    s
}

/// Where a move with game count `t` goes into `s`, which is sorted by game
/// count, most played first: after every move played at least as often.
pub open spec fn insert_point(s: Seq<ExplorerMoveView>, t: int, k: int) -> int
    decreases s.len() - k,
{
    if k < 0 || k >= s.len() {
        s.len() as int
    } else if total_of(s[k]) < t {
        k
    } else {
        insert_point(s, t, k + 1)
    }
}

/// `s` sorted by game count, most played first; moves played equally often
/// keep their order (a stable sort).
pub open spec fn by_popularity(s: Seq<ExplorerMoveView>) -> Seq<ExplorerMoveView>
    decreases s.len(),
{
    if s.len() == 0 {
        s
    } else {
        let sorted = by_popularity(s.drop_last());
        sorted.insert(insert_point(sorted, total_of(s.last()), 0), s.last())
    }
}

proof fn lemma_insert_point_bounds(s: Seq<ExplorerMoveView>, t: int, k: int)
    requires
        0 <= k <= s.len(),
    ensures
        k <= insert_point(s, t, k) <= s.len(),
        forall|j: int| k <= j < insert_point(s, t, k) ==> total_of(#[trigger] s[j]) >= t,
        insert_point(s, t, k) < s.len() ==> total_of(s[insert_point(s, t, k)]) < t,
    decreases s.len() - k,
{
    if k < s.len() && total_of(s[k]) >= t {
        lemma_insert_point_bounds(s, t, k + 1);
    }
}

/// Whether `s` is sorted by game count, most played first.
pub open spec fn popularity_sorted(s: Seq<ExplorerMoveView>) -> bool {
    forall|i: int, j: int| 0 <= i < j < s.len() ==> total_of(#[trigger] s[i]) >= total_of(#[trigger] s[j])
}

/// Sorting by popularity sorts, keeps every move (as a multiset), and keeps
/// the length.
pub proof fn by_popularity_sorts(s: Seq<ExplorerMoveView>)
    ensures
        popularity_sorted(by_popularity(s)),
        by_popularity(s).to_multiset() == s.to_multiset(),
        by_popularity(s).len() == s.len(),
    decreases s.len(),
{
    broadcast use vstd::seq_lib::group_to_multiset_ensures;
    if s.len() > 0 {
        let sorted = by_popularity(s.drop_last());
        by_popularity_sorts(s.drop_last());
        let m = s.last();
        let t = total_of(m);
        lemma_insert_point_bounds(sorted, t, 0);
        let p = insert_point(sorted, t, 0);
        let r = sorted.insert(p, m);
        assert(r == by_popularity(s));
        assert forall|i: int, j: int| 0 <= i < j < r.len() implies total_of(#[trigger] r[i]) >= total_of(#[trigger] r[j]) by {
            if j < p {
            } else if j == p {
            } else if i < p {
                assert(total_of(r[i]) >= t);
                assert(r[j] == sorted[j - 1]);
                if p < sorted.len() {
                    assert(total_of(sorted[p]) < t);
                    if j - 1 > p {
                        assert(total_of(sorted[p]) >= total_of(sorted[j - 1]));
                    }
                }
            } else if i == p {
                assert(r[j] == sorted[j - 1]);
                if p < sorted.len() {
                    assert(total_of(sorted[p]) < t);
                    if j - 1 > p {
                        assert(total_of(sorted[p]) >= total_of(sorted[j - 1]));
                    }
                }
            } else {
                assert(r[i] == sorted[i - 1]);
                assert(r[j] == sorted[j - 1]);
            }
        }
        assert(r.remove(p) =~= sorted);
        assert(r.to_multiset().remove(m) =~= sorted.to_multiset());
        assert(r.to_multiset().count(m) > 0) by {
            assert(r[p] == m);
            assert(r.contains(m));
        }
        assert(s.drop_last().push(m) == s);
        assert(r.to_multiset() =~= s.to_multiset());
    }
}

/// The first move of the sorted list is played at least as often as any
/// other move.
pub proof fn most_popular_first(s: Seq<ExplorerMoveView>, i: int)
    requires
        0 <= i < s.len(),
    ensures
        total_of(by_popularity(s)[0]) >= total_of(s[i]),
{
    broadcast use vstd::seq_lib::group_to_multiset_ensures;
    by_popularity_sorts(s);
    let r = by_popularity(s);
    assert(s.contains(s[i]));
    assert(s.to_multiset().count(s[i]) > 0);
    assert(r.contains(s[i]));
    let k = choose|k: int| 0 <= k < r.len() && r[k] == s[i];
    if k > 0 {
        assert(total_of(r[0]) >= total_of(r[k]));
    }
}

/// The moves sorted by game count, most played first, equal counts in the
/// order they came in (`sort_by` on descending totals, which is stable).
pub fn sort_by_popularity(moves: &Vec<ExplorerMove>) -> (res: Vec<ExplorerMove>)
    requires
        totals_fit(move_views(moves@)),
    ensures
        move_views(res@) == by_popularity(move_views(moves@)),
{
    let ghost all = move_views(moves@);
    let mut sorted: Vec<ExplorerMove> = Vec::new();
    let n = moves.len();
    for i in 0..n
        invariant
            n == moves@.len(),
            all == move_views(moves@),
            totals_fit(all),
            move_views(sorted@) == by_popularity(all.take(i as int)),
            totals_fit(move_views(sorted@)),
    {
        let m = moves[i].duplicate();
        assert(all[i as int] == m@);
        let t = m.total();
        let ghost sv = move_views(sorted@);
        assert(all.take(i + 1).drop_last() == all.take(i as int));
        assert(all.take(i + 1).last() == m@);
        proof {
            lemma_insert_point_bounds(sv, t as int, 0);
        }
        let mut p: usize = 0;
        while p < sorted.len() && sorted[p].total() >= t
            invariant
                sv == move_views(sorted@),
                p <= sorted@.len(),
                totals_fit(sv),
                insert_point(sv, t as int, 0) == insert_point(sv, t as int, p as int),
            decreases sorted@.len() - p,
        {
            assert(sv[p as int] == sorted@[p as int]@);
            p = p + 1;
        }
        proof {
            if p < sorted@.len() {
                assert(sv[p as int] == sorted@[p as int]@);
            }
        }
        sorted.insert(p, m);
        assert(move_views(sorted@) =~= sv.insert(p as int, m@));
    }
    assert(all.take(n as int) == all);
    sorted
}

/// Total game count of the first `k` moves of `s`.
pub open spec fn games_before(s: Seq<ExplorerMoveView>, k: int) -> int
    decreases k,
{
    if k <= 0 || s.len() == 0 {
        0
    } else if k > s.len() {
        games_before(s, s.len() as int)
    } else {
        games_before(s, k - 1) + total_of(s[k - 1])
    }
}

/// Index of the first move at or after `k` whose running game count exceeds
/// `roll`, or the last index.
pub open spec fn roll_index(s: Seq<ExplorerMoveView>, roll: int, k: int) -> int
    decreases s.len() - k,
{
    if k < 0 || k >= s.len() - 1 {
        s.len() - 1
    } else if roll < games_before(s, k + 1) {
        k
    } else {
        roll_index(s, roll, k + 1)
    }
}

/// The move that a weighted draw `roll` lands on: each move owns a stretch
/// of rolls as long as its game count, in order; a draw past the end lands
/// on the last move, and when no move was ever played the first is taken.
pub open spec fn weighted_choice(s: Seq<ExplorerMoveView>, roll: int) -> ExplorerMoveView {
    if games_before(s, s.len() as int) == 0 {
        s[0]
    } else {
        s[roll_index(s, roll, 0)]
    }
}

proof fn lemma_games_before_monotone(s: Seq<ExplorerMoveView>, j: int, k: int)
    requires
        0 <= j <= k <= s.len(),
    ensures
        games_before(s, j) <= games_before(s, k),
    decreases k - j,
{
    if j < k {
        lemma_games_before_monotone(s, j, k - 1);
    }
}

proof fn lemma_roll_index_owns_roll(s: Seq<ExplorerMoveView>, roll: int, k: int)
    requires
        0 <= k < s.len(),
        games_before(s, k) <= roll < games_before(s, s.len() as int),
    ensures
        k <= roll_index(s, roll, k) < s.len(),
        games_before(s, roll_index(s, roll, k)) <= roll < games_before(s, roll_index(s, roll, k) + 1),
    decreases s.len() - k,
{
    if k < s.len() - 1 && roll >= games_before(s, k + 1) {
        lemma_roll_index_owns_roll(s, roll, k + 1);
    }
}

proof fn lemma_roll_index_in_range(s: Seq<ExplorerMoveView>, roll: int, k: int)
    requires
        0 <= k,
        s.len() > 0,
    ensures
        0 <= roll_index(s, roll, k) < s.len(),
    decreases s.len() - k,
{
    if k < s.len() - 1 && roll >= games_before(s, k + 1) {
        lemma_roll_index_in_range(s, roll, k + 1);
    }
}

/// Each move owns a stretch of draws as long as its game count: a draw
/// below the total game count lands on the move whose stretch holds it,
/// the moves before it owning exactly the draws below that stretch. Every
/// draw, whatever its value, lands on one of the moves.
pub proof fn weighted_choice_owns_its_draw(s: Seq<ExplorerMoveView>, roll: int)
    requires
        s.len() > 0,
    ensures
        s.contains(weighted_choice(s, roll)),
        0 <= roll < games_before(s, s.len() as int) ==> {
            let i = roll_index(s, roll, 0);
            &&& 0 <= i < s.len()
            &&& weighted_choice(s, roll) == s[i]
            &&& games_before(s, i) <= roll < games_before(s, i) + total_of(s[i])
        },
{
    lemma_roll_index_in_range(s, roll, 0);
    let i = roll_index(s, roll, 0);
    if games_before(s, s.len() as int) == 0 {
        assert(weighted_choice(s, roll) == s[0]);
    } else {
        assert(weighted_choice(s, roll) == s[i]);
    }
    if 0 <= roll < games_before(s, s.len() as int) {
        lemma_roll_index_owns_roll(s, roll, 0);
        assert(games_before(s, i + 1) == games_before(s, i) + total_of(s[i]));
    }
}

/// Picks a move with probability proportional to its game count, given a
/// draw `roll` that the caller takes uniformly from `0` to the total game
/// count of `moves`.
pub fn weighted_pick(moves: &Vec<ExplorerMove>, roll: u64) -> (res: ExplorerMove)
    requires
        moves@.len() > 0,
        games_before(move_views(moves@), moves@.len() as int) <= u64::MAX,
    ensures
        res@ == weighted_choice(move_views(moves@), roll as int),
{
    let ghost s = move_views(moves@);
    let n = moves.len();
    let mut total: u64 = 0;
    for i in 0..n
        invariant
            n == moves@.len(),
            s == move_views(moves@),
            games_before(s, n as int) <= u64::MAX,
            total == games_before(s, i as int),
    {
        proof {
            lemma_games_before_monotone(s, i + 1, n as int);
            assert(s[i as int] == moves@[i as int]@);
        }
        total = total + moves[i].total();
    }
    if total == 0 {
        return moves[0].duplicate();
    }
    let mut cumulative: u64 = 0;
    let mut i: usize = 0;
    while i + 1 < n
        invariant
            n == moves@.len(),
            n > 0,
            s == move_views(moves@),
            games_before(s, n as int) <= u64::MAX,
            i < n,
            cumulative == games_before(s, i as int),
            roll_index(s, roll as int, 0) == roll_index(s, roll as int, i as int),
        decreases n - i,
    {
        proof {
            lemma_games_before_monotone(s, i + 1, n as int);
            assert(s[i as int] == moves@[i as int]@);
        }
        cumulative = cumulative + moves[i].total();
        if roll < cumulative {
            return moves[i].duplicate();
        }
        i = i + 1;
    }
    moves[n - 1].duplicate()
}

/// The explorer's most played move, the first of them where several are
/// played equally often; `None` when the answer has no move. This is the
/// deterministic choice; [`explorer_pool`] and [`weighted_pick`] make the
/// random one.
pub fn pick_explorer_move(resp: &ExplorerResponse, rating: u16) -> (res: Option<ExplorerMove>)
    requires
        totals_fit(move_views(resp.moves@)),
    ensures
        resp.moves@.len() == 0 ==> res is None,
        resp.moves@.len() > 0 ==> (res matches Some(m) && m@ == by_popularity(move_views(resp.moves@))[0]),
{
    if resp.moves.len() == 0 {
        return None;
    }
    let sorted = sort_by_popularity(&resp.moves);
    proof {
        by_popularity_sorts(move_views(resp.moves@));
        assert(sorted@[0]@ == move_views(sorted@)[0]);
    }
    Some(sorted[0].duplicate())
}

/// A place where explorer answers are looked up, in the order they are
/// tried: the browser's local storage, the cache bundled with the app, and
/// the live explorer.
#[derive(Clone, Copy, Debug, PartialEq, Eq, Structural)]
pub enum LookupStage {
    LocalStorage,
    Bundled,
    LiveApi,
}

/// What to do after a lookup stage has been tried.
#[derive(Clone, Copy, Debug, PartialEq, Eq, Structural)]
pub enum LookupStep {
    /// Try the next place.
    Try { stage: LookupStage },
    /// The answer just found is the result; `save` asks for it to be
    /// written to local storage first.
    Answer { save: bool },
    /// No place had an answer: the caller falls back to the book move.
    NoData,
}

/// Where a lookup starts: local storage in the browser, else the bundled
/// cache (local storage and the live explorer exist only in the browser).
pub open spec fn first_stage_spec(browser: bool) -> LookupStage {
    if browser { LookupStage::LocalStorage } else { LookupStage::Bundled }
}

/// The step after trying `stage`: an answer found ends the lookup (and is
/// saved when it came from the live explorer); else the next place is
/// tried, the live explorer only in the browser.
pub open spec fn next_step_spec(stage: LookupStage, found: bool, browser: bool) -> LookupStep {
    if found {
        LookupStep::Answer { save: stage == LookupStage::LiveApi }
    } else {
        match stage {
            LookupStage::LocalStorage => LookupStep::Try { stage: LookupStage::Bundled },
            LookupStage::Bundled => if browser {
                LookupStep::Try { stage: LookupStage::LiveApi }
            } else {
                LookupStep::NoData
            },
            LookupStage::LiveApi => LookupStep::NoData,
        }
    }
}

/// The first place a lookup tries (see [`first_stage_spec`]).
pub fn first_lookup_stage(browser: bool) -> (res: LookupStage)
    ensures
        res == first_stage_spec(browser),
{
    if browser { LookupStage::LocalStorage } else { LookupStage::Bundled }
}

/// The step after trying `stage`, given whether it had an answer (see
/// [`next_step_spec`]).
pub fn next_lookup_step(stage: LookupStage, found: bool, browser: bool) -> (res: LookupStep)
    ensures
        res == next_step_spec(stage, found, browser),
{
    if found {
        LookupStep::Answer { save: stage == LookupStage::LiveApi }
    } else {
        match stage {
            LookupStage::LocalStorage => LookupStep::Try { stage: LookupStage::Bundled },
            LookupStage::Bundled => if browser {
                LookupStep::Try { stage: LookupStage::LiveApi }
            } else {
                LookupStep::NoData
            },
            LookupStage::LiveApi => LookupStep::NoData,
        }
    }
}

/// Position of a stage in the lookup order.
pub open spec fn stage_rank(stage: LookupStage) -> int {
    match stage {
        LookupStage::LocalStorage => 0,
        LookupStage::Bundled => 1,
        LookupStage::LiveApi => 2,
    }
}

/// A lookup only moves forward through the three places, so it ends after
/// at most three tries; outside the browser it never reaches the live
/// explorer.
pub proof fn lookup_moves_forward(stage: LookupStage, found: bool, browser: bool)
    ensures
        next_step_spec(stage, found, browser) matches LookupStep::Try { stage: next }
            ==> stage_rank(next) == stage_rank(stage) + 1,
        !browser && stage != LookupStage::LiveApi ==> next_step_spec(stage, found, browser)
            != (LookupStep::Try { stage: LookupStage::LiveApi }),
        next_step_spec(stage, found, browser) matches LookupStep::Try { stage: next }
            ==> stage_rank(next) <= 2,
{
}

/// Only an answer from the live explorer is written to local storage;
/// answers from local storage or the bundled cache are used as they are.
pub proof fn only_live_answers_are_saved(stage: LookupStage, browser: bool)
    ensures
        next_step_spec(stage, true, browser) == (LookupStep::Answer { save: stage == LookupStage::LiveApi }),
{
}

/// Whether a rating plays below the explorer's 1600 band with more than one
/// candidate: then the top move is avoided with probability
/// `(1600 - rating) / 800`.
pub open spec fn avoids_top_sometimes(rating: u16, n: nat) -> bool {
    rating < 1600 && n > 1
}

/// Whether the top move may be avoided (see [`avoids_top_sometimes`]); only
/// then is the coin for it thrown.
pub fn may_avoid_top(rating: u16, n: usize) -> (res: bool)
    ensures
        res == avoids_top_sometimes(rating, n as nat),
{
    rating < 1600 && n > 1
}

/// The total game count of `moves`, which a weighted draw is taken below;
/// `None` when it does not fit in a `u64`.
pub fn total_games(moves: &Vec<ExplorerMove>) -> (res: Option<u64>)
    ensures
        match res {
            Some(t) => t == games_before(move_views(moves@), moves@.len() as int),
            None => games_before(move_views(moves@), moves@.len() as int) > u64::MAX
                || !totals_fit(move_views(moves@)),
        },
{
    let ghost s = move_views(moves@);
    let n = moves.len();
    let mut total: u64 = 0;
    for i in 0..n
        invariant
            n == moves@.len(),
            s == move_views(moves@),
            total == games_before(s, i as int),
    {
        let m = &moves[i];
        assert(s[i as int] == m@);
        let t = match m.white.checked_add(m.draws) {
            Some(x) => match x.checked_add(m.black) {
                Some(y) => y,
                None => return None,
            },
            None => return None,
        };
        total = match total.checked_add(t) {
            Some(x) => x,
            None => {
                proof {
                    lemma_games_before_monotone(s, i + 1, n as int);
                }
                return None;
            },
        };
    }
    Some(total)
}

/// The moves a weighted draw is made from: all of them sorted by popularity,
/// or all but the most played one when the rating is below 1600, there is
/// more than one move and the caller's coin (`avoid_top`) says so.
pub fn explorer_pool(resp: &ExplorerResponse, rating: u16, avoid_top: bool) -> (res: Vec<ExplorerMove>)
    requires
        totals_fit(move_views(resp.moves@)),
    ensures
        move_views(res@) == if avoids_top_sometimes(rating, resp.moves@.len()) && avoid_top {
            by_popularity(move_views(resp.moves@)).drop_first()
        } else {
            by_popularity(move_views(resp.moves@))
        },
{
    let sorted = sort_by_popularity(&resp.moves);
    proof {
        by_popularity_sorts(move_views(resp.moves@));
    }
    if rating < 1600 && sorted.len() > 1 && avoid_top {
        let mut rest: Vec<ExplorerMove> = Vec::new();
        let n = sorted.len();
        for i in 1..n
            invariant
                n == sorted@.len(),
                n > 1,
                move_views(rest@) == move_views(sorted@).subrange(1, i as int),
        {
            let d = sorted[i].duplicate();
            let ghost before = move_views(rest@);
            assert(d@ == move_views(sorted@)[i as int]);
            rest.push(d);
            assert(move_views(rest@) =~= before.push(d@));
            assert(move_views(rest@) =~= move_views(sorted@).subrange(1, i + 1));
        }
        assert(move_views(sorted@).subrange(1, n as int) == move_views(sorted@).drop_first());
        rest
    } else {
        sorted
    }
}

/// The square named by a file letter `a`-`h` and a rank digit `1`-`8`.
pub open spec fn square_of(file: u8, rank: u8) -> Option<u8> {
    if 97 <= file <= 104 && 49 <= rank <= 56 {
        Some(((file - 97) + 8 * (rank - 49)) as u8)
    } else {
        None
    }
}

/// Reads a square from its two-letter name, given as bytes.
fn parse_square(file: u8, rank: u8) -> (res: Option<u8>)
    ensures
        res == square_of(file, rank),
{
    if file < 97 || rank < 49 {
        return None;
    }
    let f = file - 97;
    let r = rank - 49;
    if f > 7 || r > 7 {
        return None;
    }
    Some(f + 8 * r)
}

/// The origin and target squares of a UCI move such as `e2e4` or `e7e8q`,
/// read from its first four bytes; anything after them is ignored.
pub open spec fn uci_squares(bytes: Seq<u8>) -> Option<(u8, u8)> {
    if bytes.len() < 4 {
        None
    } else {
        match (square_of(bytes[0], bytes[1]), square_of(bytes[2], bytes[3])) {
            (Some(f), Some(t)) => Some((f, t)),
            _ => None,
        }
    }
}

/// The two-byte name of square `sq`: file letter `a`-`h`, rank digit
/// `1`-`8`.
pub open spec fn square_name(sq: u8) -> Seq<u8> {
    seq![(97 + sq % 8) as u8, (49 + sq / 8) as u8]
}

/// Reading a UCI move gives back its squares: the names of two squares,
/// followed by anything (a promotion letter), read as those two squares;
/// and a UCI text is read exactly when its first four bytes name two
/// squares.
pub proof fn uci_names_read_back(a: u8, b: u8, rest: Seq<u8>, bytes: Seq<u8>)
    requires
        a < 64,
        b < 64,
    ensures
        uci_squares(square_name(a) + square_name(b) + rest) == Some((a, b)),
        uci_squares(bytes) is Some <==> (bytes.len() >= 4 && 97 <= bytes[0] <= 104 && 49 <= bytes[1] <= 56
            && 97 <= bytes[2] <= 104 && 49 <= bytes[3] <= 56),
{
    let t = square_name(a) + square_name(b) + rest;
    assert(t[0] == square_name(a)[0]);
    assert(t[1] == square_name(a)[1]);
    assert(t[2] == square_name(b)[0]);
    assert(t[3] == square_name(b)[1]);
    assert(square_of(t[0], t[1]) == Some(a));
    assert(square_of(t[2], t[3]) == Some(b));
}

/// Parses a UCI move string like `e2e4` into (from, to) squares; a
/// promotion suffix (`e7e8q`) is ignored. The first two and the next two
/// bytes must each be whole characters.
pub fn parse_uci_squares(uci: &str) -> (res: Option<(u8, u8)>)
    requires
        uci.spec_bytes().len() >= 4 ==> is_char_boundary(uci.spec_bytes(), 2) && is_char_boundary(uci.spec_bytes(), 4),
    ensures
        res == uci_squares(uci.spec_bytes()),
{
    let b = uci.as_bytes();
    if b.len() < 4 {
        return None;
    }
    let from = match parse_square(b[0], b[1]) {
        Some(f) => f,
        None => return None,
    };
    let to = match parse_square(b[2], b[3]) {
        Some(t) => t,
        None => return None,
    };
    Some((from, to))
}

} // verus!
