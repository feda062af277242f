//! The game: a chess position with the operations the board needs. The rules
//! themselves (legal moves, check) come from `shakmaty` through
//! [`crate::engine`]; this module decides what a click means, which of
//! several promotion moves is played, and how a game has ended.

use vstd::prelude::*;
use crate::engine::{
    codes_distinct, promotion_by_squares, queen_with_every_promotion,
    board_codes, check_at, check_in, checkmate_in, stalemate_in, fen_after, fen_position, legal_move_codes, legal_moves_in,
    piece_code_at, piece_in, pieces_in, play_legal_move, read_fen, start_fen, start_fen_spec,
    white_moves_in, white_to_move,
};
use crate::pieces::{
    color_from_flag, color_of_flag, move_from_code, move_of_code, piece_from_code, piece_of_code,
    role_of_code,
    ChessMove, MoveCode, PieceColor, PieceRole,
};

verus! {

/// How a game has ended, or that it has not.
#[derive(Clone, Copy, Debug, PartialEq, Eq, Structural)]
pub enum Outcome {
    /// The side to move is in check and has no legal move; `winner` is the
    /// other side.
    Checkmate { winner: PieceColor },
    /// The side to move is not in check and has no legal move.
    Stalemate,
    /// The side to move has a legal move.
    InProgress,
}

/// A chess position, held as the FEN that `shakmaty` writes for it.
#[derive(Clone, Debug)]
pub struct GameState {
    fen: String,
}

impl View for GameState {
    type V = Seq<char>;

    closed spec fn view(&self) -> Seq<char> {
        self.fen@
    }
}

/// The legal moves of the position `fen`, in the engine's order.
pub open spec fn moves_of(fen: Seq<char>) -> Seq<ChessMove> {
    legal_move_codes(fen).map_values(|c: MoveCode| move_of_code(c))
}

/// The moves of `ms` that start on `from`, in their order.
pub open spec fn starting_at(ms: Seq<ChessMove>, from: u8) -> Seq<ChessMove> {
    ms.filter(|m: ChessMove| m.from == Some(from))
}

/// The target squares of `ms`, in their order.
pub open spec fn targets(ms: Seq<ChessMove>) -> Seq<u8> {
    ms.map_values(|m: ChessMove| m.to)
}

/// The legal moves of `fen` that start on `from`, in the engine's order.
pub open spec fn moves_from(fen: Seq<char>, from: u8) -> Seq<ChessMove> {
    starting_at(moves_of(fen), from)
}

/// The targets of the legal moves that start on `from`.
pub open spec fn targets_from(fen: Seq<char>, from: u8) -> Seq<u8> {
    targets(moves_from(fen, from))
}

/// The side to move in `fen`.
pub open spec fn turn_of(fen: Seq<char>) -> PieceColor {
    color_of_flag(white_to_move(fen))
}

/// A move that a click from `from` to `to` may play: it goes from `from` to
/// `to` and is no promotion, or a promotion to a queen.
pub open spec fn playable(m: ChessMove, from: u8, to: u8) -> bool {
    &&& m.from == Some(from)
    &&& m.to == to
    &&& match m.promotion {
        Some(r) => r == PieceRole::Queen,
        None => true,
    }
}

/// Index of the first move at or after `k` that a click from `from` to `to`
/// plays.
pub open spec fn choice_from(ms: Seq<ChessMove>, from: u8, to: u8, k: int) -> Option<int>
    decreases ms.len() - k,
{
    if k < 0 || k >= ms.len() {
        None
    } else if playable(ms[k], from, to) {
        Some(k)
    } else {
        choice_from(ms, from, to, k + 1)
    }
}

/// The move that a click from `from` to `to` plays in `fen`, by its index.
pub open spec fn click_choice(fen: Seq<char>, from: u8, to: u8) -> Option<int> {
    choice_from(moves_of(fen), from, to, 0)
}

/// Whether some move of `ms` goes from `from` to `to`.
pub open spec fn has_move(ms: Seq<ChessMove>, from: u8, to: u8) -> bool {
    exists|i: int| 0 <= i < ms.len() && (#[trigger] ms[i]).from == Some(from) && ms[i].to == to
}

/// Whether, for every move of `ms` that promotes, the queen promotion with
/// the same origin and target is among `ms` too.
pub open spec fn queen_promotions_present(ms: Seq<ChessMove>) -> bool {
    forall|i: int| 0 <= i < ms.len() && (#[trigger] ms[i]).promotion is Some
        ==> ms.contains(ChessMove { from: ms[i].from, to: ms[i].to, promotion: Some(PieceRole::Queen) })
}

pub(crate) proof fn lemma_queen_codes(codes: Seq<MoveCode>)
    requires
        queen_with_every_promotion(codes),
    ensures
        queen_promotions_present(codes.map_values(|c: MoveCode| move_of_code(c))),
{
    let ms = codes.map_values(|c: MoveCode| move_of_code(c));
    assert forall|i: int| 0 <= i < ms.len() && (#[trigger] ms[i]).promotion is Some
        implies ms.contains(ChessMove { from: ms[i].from, to: ms[i].to, promotion: Some(PieceRole::Queen) }) by {
        assert(ms[i] == move_of_code(codes[i]));
        assert(codes[i].2 is Some);
        assert(codes.contains((codes[i].0, codes[i].1, Some(5u8))));
        let k = choose|k: int| 0 <= k < codes.len() && codes[k] == (codes[i].0, codes[i].1, Some(5u8));
        assert(ms[k] == move_of_code(codes[k]));
    }
}

pub(crate) proof fn lemma_some_move_is_playable(ms: Seq<ChessMove>, from: u8, to: u8)
    requires
        queen_promotions_present(ms),
        has_move(ms, from, to),
    ensures
        choice_from(ms, from, to, 0) is Some,
{
    let i = choose|i: int| 0 <= i < ms.len() && (#[trigger] ms[i]).from == Some(from) && ms[i].to == to;
    if ms[i].promotion is Some {
        let q = ChessMove { from: ms[i].from, to: ms[i].to, promotion: Some(PieceRole::Queen) };
        assert(ms.contains(q));
        let k = choose|k: int| 0 <= k < ms.len() && ms[k] == q;
        assert(playable(ms[k], from, to));
    } else {
        assert(playable(ms[i], from, to));
    }
    lemma_choice_from(ms, from, to, 0);
}

/// In a move list where no code repeats and moves with the same squares all
/// promote or none does, a click from the origin to the target of a code
/// that does not promote, or promotes to a queen, plays exactly that code.
pub(crate) proof fn lemma_click_plays_code(codes: Seq<MoveCode>, code: MoveCode, from: u8, j: int)
    requires
        codes_distinct(codes),
        promotion_by_squares(codes),
        0 <= j < codes.len(),
        codes[j] == code,
        code.0 == Some(from),
        code.2 is None || code.2 == Some(5u8),
    ensures
        choice_from(codes.map_values(|c: MoveCode| move_of_code(c)), from, code.1, 0) == Some(j),
{
    let ms = codes.map_values(|c: MoveCode| move_of_code(c));
    assert(ms[j] == move_of_code(codes[j]));
    assert(playable(ms[j], from, code.1));
    lemma_choice_from(ms, from, code.1, 0);
    let i = choice_from(ms, from, code.1, 0)->0;
    assert(ms[i] == move_of_code(codes[i]));
    assert(codes[i].0 == codes[j].0 && codes[i].1 == codes[j].1);
    if code.2 is None {
        assert(codes[i].2 is None);
    } else {
        assert(codes[i].2 is Some);
        assert(codes[i].2->0 == 5u8);
    }
    assert(codes[i] == code);
    if i != j {
        if i < j {
            assert(codes[i] != codes[j]);
        } else {
            assert(codes[j] != codes[i]);
        }
    }
}

/// The outcome named by the engine's checkmate and stalemate tests, with
/// `turn` the side to move.
pub open spec fn outcome_spec(checkmate: bool, stalemate: bool, turn: PieceColor) -> Outcome {
    if checkmate {
        Outcome::Checkmate { winner: turn.opposite() }
    } else if stalemate {
        Outcome::Stalemate
    } else {
        Outcome::InProgress
    }
}

/// The outcome of the position `fen`.
pub open spec fn outcome_of(fen: Seq<char>) -> Outcome {
    if legal_move_codes(fen).len() == 0 {
        if check_at(fen) {
            Outcome::Checkmate { winner: turn_of(fen).opposite() }
        } else {
            Outcome::Stalemate
        }
    } else {
        Outcome::InProgress
    }
}

/// The outcome from the engine's checkmate and stalemate tests: checkmate
/// wins for the side that is not to move; otherwise stalemate, otherwise the
/// game goes on.
pub fn outcome_from(checkmate: bool, stalemate: bool, turn: PieceColor) -> (res: Outcome)
    ensures
        res == outcome_spec(checkmate, stalemate, turn),
{
    if checkmate {
        Outcome::Checkmate { winner: turn.other() }
    } else if stalemate {
        Outcome::Stalemate
    } else {
        Outcome::InProgress
    }
}

/// The index of the move of `moves` that a click from `from` to `to` plays:
/// the first that goes from `from` to `to` and is no promotion or a
/// promotion to a queen.
pub fn choose_move(moves: &Vec<ChessMove>, from: u8, to: u8) -> (res: Option<usize>)
    ensures
        match choice_from(moves@, from, to, 0) {
            Some(i) => res == Some(i as usize),
            None => res is None,
        },
{
    let n = moves.len();
    let mut i: usize = 0;
    while i < n
        invariant
            n == moves@.len(),
            i <= n,
            choice_from(moves@, from, to, 0) == choice_from(moves@, from, to, i as int),
        decreases n - i,
    {
        let m = moves[i];
        let queen_ok = match m.promotion {
            Some(r) => r == PieceRole::Queen,
            None => true,
        };
        if m.from == Some(from) && m.to == to && queen_ok {
            assert(playable(moves@[i as int], from, to));
            return Some(i);
        }
        i = i + 1;
    }
    None
}

/// The moves of `moves` that start on `from`, in their order.
pub fn moves_starting_at(moves: &Vec<ChessMove>, from: u8) -> (res: Vec<ChessMove>)
    ensures
        res@ == starting_at(moves@, from),
{
    let mut out: Vec<ChessMove> = Vec::new();
    let n = moves.len();
    let ghost pred = |m: ChessMove| m.from == Some(from);
    for i in 0..n
        invariant
            n == moves@.len(),
            pred == (|m: ChessMove| m.from == Some(from)),
            out@ == moves@.take(i as int).filter(pred),
    {
        reveal(Seq::filter);
        let m = moves[i];
        assert(moves@.take(i + 1).drop_last() == moves@.take(i as int));
        if m.from == Some(from) {
            out.push(m);
        }
    }
    assert(moves@.take(n as int) == moves@);
    out
}

/// The target squares of `moves`, in their order.
pub fn targets_of(moves: &Vec<ChessMove>) -> (res: Vec<u8>)
    ensures
        res@ == targets(moves@),
{
    let mut out: Vec<u8> = Vec::new();
    let n = moves.len();
    for i in 0..n
        invariant
            n == moves@.len(),
            out@ == moves@.take(i as int).map_values(|m: ChessMove| m.to),
    {
        out.push(moves[i].to);
        assert(moves@.take(i + 1) == moves@.take(i as int).push(moves@[i as int]));
    }
    assert(moves@.take(n as int) == moves@);
    out
}

/// The piece on square `sq` of `fen`.
pub open spec fn piece_on(fen: Seq<char>, sq: u8) -> Option<(PieceColor, PieceRole)> {
    if sq < 64 {
        match piece_code_at(fen, sq) {
            Some(c) => Some(piece_of_code(c)),
            None => None,
        }
    } else {
        None
    }
}

/// The pieces of `fen` as the engine's board walk reports them.
pub open spec fn pieces_of(fen: Seq<char>) -> Seq<(u8, PieceColor, PieceRole)> {
    board_codes(fen).map_values(|c: (u8, bool, u8)| (c.0, color_of_flag(c.1), role_of_code(c.2)))
}

impl GameState {
    /// A new game in the standard starting position.
    pub fn new() -> (res: Self)
        ensures
            res@ == start_fen_spec(),
    {
        GameState { fen: start_fen() }
    }

    /// The game in the position that `fen` describes, or `None` where `fen`
    /// is no FEN or describes no legal chess position.
    pub fn from_fen(fen: &str) -> (res: Option<Self>)
        ensures
            match fen_position(fen@) {
                Some(s) => res matches Some(g) && g@ == s,
                None => res is None,
            },
    {
        match read_fen(fen) {
            Some(s) => Some(GameState { fen: s }),
            None => None,
        }
    }

    /// A copy of this game.
    pub fn snapshot(&self) -> (res: Self)
        ensures
            res@ == self@,
    {
        GameState { fen: self.fen.clone() }
    }

    /// The position as FEN.
    pub fn to_fen(&self) -> (res: String)
        ensures
            res@ == self@,
    {
        self.fen.clone()
    }

    /// The side to move.
    pub fn turn(&self) -> (res: PieceColor)
        ensures
            res == turn_of(self@),
    {
        color_from_flag(white_moves_in(self.fen.as_str()))
    }

    /// Every legal move of the position.
    pub fn legal_moves(&self) -> (res: Vec<ChessMove>)
        ensures
            res@ == moves_of(self@),
            queen_promotions_present(res@),
    {
        let codes = legal_moves_in(self.fen.as_str());
        let mut out: Vec<ChessMove> = Vec::new();
        let n = codes.len();
        for i in 0..n
            invariant
                n == codes@.len(),
                codes@ == legal_move_codes(self@),
                out@ == codes@.take(i as int).map_values(|c: MoveCode| move_of_code(c)),
        {
            out.push(move_from_code(codes[i]));
            assert(codes@.take(i + 1) == codes@.take(i as int).push(codes@[i as int]));
        }
        assert(codes@.take(n as int) == codes@);
        proof {
            lemma_queen_codes(codes@);
        }
        out
    }

    /// The legal moves that start on `from`.
    pub fn legal_moves_from(&self, from: u8) -> (res: Vec<ChessMove>)
        ensures
            res@ == moves_from(self@, from),
    {
        moves_starting_at(&self.legal_moves(), from)
    }

    /// The target squares of the legal moves that start on `from`.
    pub fn reachable_squares(&self, from: u8) -> (res: Vec<u8>)
        ensures
            res@ == targets_from(self@, from),
    {
        targets_of(&self.legal_moves_from(from))
    }

    /// Plays the move from `from` to `to` if one is legal, preferring a
    /// queen where the move is a promotion. Returns whether a move was
    /// played, which is whether some legal move goes from `from` to `to`;
    /// when none was, the position is unchanged.
    pub fn apply_move(&mut self, from: u8, to: u8) -> (res: bool)
        ensures
            res == has_move(moves_of(old(self)@), from, to),
            match click_choice(old(self)@, from, to) {
                Some(i) => res && final(self)@ == fen_after(old(self)@, i as usize),
                None => !res && final(self)@ == old(self)@,
            },
            res ==> turn_of(final(self)@) == turn_of(old(self)@).opposite(),
    {
        let moves = self.legal_moves();
        proof {
            lemma_choice_from(moves@, from, to, 0);
            if has_move(moves@, from, to) {
                lemma_some_move_is_playable(moves@, from, to);
            }
            if let Some(i) = choice_from(moves@, from, to, 0) {
                assert(moves@[i].from == Some(from) && moves@[i].to == to);
            }
        }
        match choose_move(&moves, from, to) {
            Some(i) => {
                let next = play_legal_move(self.fen.as_str(), i);
                self.fen = next;
                true
            },
            None => false,
        }
    }

    /// How the game stands: checkmate, stalemate or still in progress.
    pub fn outcome(&self) -> (res: Outcome)
        ensures
            res == outcome_of(self@),
    {
        let checkmate = checkmate_in(self.fen.as_str());
        let stalemate = stalemate_in(self.fen.as_str());
        outcome_from(checkmate, stalemate, self.turn())
    }

    /// Whether the side to move is in check.
    pub fn is_in_check(&self) -> (res: bool)
        ensures
            res == check_at(self@),
    {
        check_in(self.fen.as_str())
    }

    /// The piece on `square`, or `None` where it is empty (or is no square).
    pub fn piece_at(&self, square: u8) -> (res: Option<(PieceColor, PieceRole)>)
        ensures
            res == piece_on(self@, square),
    {
        if square >= 64 {
            return None;
        }
        match piece_in(self.fen.as_str(), square) {
            Some(c) => Some(piece_from_code(c)),
            None => None,
        }
    }

    /// Every piece on the board as (square, colour, kind), squares ascending.
    pub fn all_pieces(&self) -> (res: Vec<(u8, PieceColor, PieceRole)>)
        ensures
            res@ == pieces_of(self@),
            forall|i: int| 0 <= i < res@.len() ==> piece_on(self@, #[trigger] res@[i].0) == Some((res@[i].1, res@[i].2)),
            forall|i: int, j: int| 0 <= i < j < res@.len() ==> res@[i].0 < res@[j].0,
            res@.len() == board_codes(self@).len(),
            forall|i: int| 0 <= i < res@.len() ==> #[trigger] res@[i].0 == board_codes(self@)[i].0,
    {
        let codes = pieces_in(self.fen.as_str());
        let mut out: Vec<(u8, PieceColor, PieceRole)> = Vec::new();
        let n = codes.len();
        for i in 0..n
            invariant
                n == codes@.len(),
                codes@ == board_codes(self@),
                forall|k: int| 0 <= k < codes@.len() ==> piece_code_at(self@, #[trigger] codes@[k].0) == Some((codes@[k].1, codes@[k].2)),
                forall|k: int, j: int| 0 <= k < j < codes@.len() ==> codes@[k].0 < codes@[j].0,
                forall|k: int| 0 <= k < codes@.len() ==> #[trigger] codes@[k].0 < 64,
                out@.len() == i,
                forall|k: int| 0 <= k < i ==> #[trigger] out@[k] == (codes@[k].0, piece_of_code((codes@[k].1, codes@[k].2)).0, piece_of_code((codes@[k].1, codes@[k].2)).1),
        {
            let (sq, white, role) = codes[i];
            let (c, r) = piece_from_code((white, role));
            out.push((sq, c, r));
        }
        proof {
            assert(out@ =~= pieces_of(self@));
            assert forall|i: int| 0 <= i < out@.len() implies piece_on(self@, #[trigger] out@[i].0) == Some((out@[i].1, out@[i].2)) by {
                assert(piece_code_at(self@, codes@[i].0) == Some((codes@[i].1, codes@[i].2)));
            }
        }
        out
    }
}

impl Default for GameState {
    fn default() -> (res: Self)
        ensures
            res@ == start_fen_spec(),
    {
        Self::new()
    }
}

proof fn lemma_choice_from(ms: Seq<ChessMove>, from: u8, to: u8, k: int)
    requires
        0 <= k,
    ensures
        choice_from(ms, from, to, k) matches Some(i) ==> k <= i < ms.len() && playable(ms[i], from, to),
        (exists|j: int| k <= j < ms.len() && playable(ms[j], from, to)) ==> choice_from(ms, from, to, k) is Some,
    decreases ms.len() - k,
{
    if k < ms.len() && !playable(ms[k], from, to) {
        lemma_choice_from(ms, from, to, k + 1);
        if exists|j: int| k <= j < ms.len() && playable(ms[j], from, to) {
            let j = choose|j: int| k <= j < ms.len() && playable(ms[j], from, to);
            assert(j != k);
        }
    }
}

/// A click that plays a move only plays it onto a reachable square: when
/// [`GameState::apply_move`] plays a move from `from` to `to`,
/// [`GameState::reachable_squares`] from `from` lists `to`.
pub proof fn played_move_is_reachable(fen: Seq<char>, from: u8, to: u8)
    ensures
        click_choice(fen, from, to) is Some ==> targets_from(fen, from).contains(to),
{
    broadcast use vstd::seq_lib::group_filter_ensures;
    let ms = moves_of(fen);
    lemma_choice_from(ms, from, to, 0);
    if let Some(i) = click_choice(fen, from, to) {
        let pred = |m: ChessMove| m.from == Some(from);
        ms.lemma_filter_contains(pred, i);
        let f = ms.filter(pred);
        let k = choose|k: int| 0 <= k < f.len() && f[k] == ms[i];
        assert(targets_from(fen, from)[k] == to);
    }
}

/// A legal move from `from` to `to` that is no promotion, or a promotion to
/// a queen, is always played by [`GameState::apply_move`].
pub proof fn legal_move_is_played(fen: Seq<char>, from: u8, to: u8, j: int)
    requires
        0 <= j < moves_of(fen).len(),
        playable(moves_of(fen)[j], from, to),
    ensures
        click_choice(fen, from, to) is Some,
{
    lemma_choice_from(moves_of(fen), from, to, 0);
}

/// Every move that [`GameState::legal_moves_from`] lists starts on the
/// square asked for and is one of [`GameState::legal_moves`].
pub proof fn moves_from_are_legal_moves(fen: Seq<char>, from: u8, i: int)
    requires
        0 <= i < moves_from(fen, from).len(),
    ensures
        moves_from(fen, from)[i].from == Some(from),
        moves_of(fen).contains(moves_from(fen, from)[i]),
{
    broadcast use vstd::seq_lib::group_filter_ensures;
    let pred = |m: ChessMove| m.from == Some(from);
    moves_of(fen).lemma_filter_pred(pred, i);
    moves_of(fen).lemma_filter_contains_rev(pred, moves_from(fen, from)[i]);
}

} // verus!
