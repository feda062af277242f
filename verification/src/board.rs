//! The decisions behind the game board: what a click on a square does
//! during an opening drill, when the computer plays its book move, undo,
//! the three-stage hint, the status line, and how squares are drawn.
//!
//! The board is a state machine: every user or timer event is a method that
//! takes the state to the next one; the screen only draws the state and
//! hands events back.

use vstd::prelude::*;
use vstd::string::StringExecFns;
use crate::engine::{check_at, fen_after};
use crate::game::{
    click_choice, has_move, moves_of, outcome_of, piece_on, pieces_of, targets_from, turn_of,
    GameState, Outcome,
};
use crate::explorer::{decimal, push_decimal};
use crate::openings::{Opening, OpeningMove};
use crate::pieces::{PieceColor, PieceRole};

verus! {

/// Three-stage hint: off, the piece to move, the whole move.
#[derive(Clone, Copy, Debug, PartialEq, Eq, Structural)]
pub enum HintState {
    /// No hint.
    Off,
    /// The origin square of the book move is marked.
    Piece,
    /// Origin and target squares of the book move are marked.
    Full,
}

/// The state of the board screen.
pub struct BoardState {
    /// The side the user plays.
    pub player_color: PieceColor,
    /// The opening being drilled, or `None` for free play.
    pub opening: Option<Opening>,
    pub game: GameState,
    /// The square of the selected piece.
    pub selected: Option<u8>,
    /// Where the selected piece can go.
    pub reachable: Vec<u8>,
    /// The status line.
    pub status: String,
    /// How many moves of the opening line have been played (both sides).
    pub op_move_idx: usize,
    /// Whether play has left the opening line.
    pub deviated: bool,
    pub hint: HintState,
    /// Wrong tries at the current book move.
    pub wrong_attempts: u32,
    /// Game, opening progress and deviation before each of the user's moves.
    pub history: Vec<(GameState, usize, bool)>,
    /// Bumped by undo, so that a computer move scheduled before it is
    /// dropped.
    pub generation: u32,
}

/// The board state as plain values.
pub struct BoardModel {
    pub player: PieceColor,
    pub book: Option<Seq<OpeningMove>>,
    pub fen: Seq<char>,
    pub selected: Option<u8>,
    pub reachable: Seq<u8>,
    pub status: Seq<char>,
    pub idx: usize,
    pub deviated: bool,
    pub hint: HintState,
    pub wrong: u32,
    pub history: Seq<(Seq<char>, usize, bool)>,
    pub generation: u32,
}

pub open spec fn history_views(h: Seq<(GameState, usize, bool)>) -> Seq<(Seq<char>, usize, bool)> {
    h.map_values(|e: (GameState, usize, bool)| (e.0@, e.1, e.2))
}

impl BoardState {
    pub open spec fn model(&self) -> BoardModel {
        BoardModel {
            player: self.player_color,
            book: match self.opening {
                Some(o) => Some(o.moves@),
                None => None,
            },
            fen: self.game@,
            selected: self.selected,
            reachable: self.reachable@,
            status: self.status@,
            idx: self.op_move_idx,
            deviated: self.deviated,
            hint: self.hint,
            wrong: self.wrong_attempts,
            history: history_views(self.history@),
            generation: self.generation,
        }
    }
}

/// `White` or `Black`.
pub open spec fn color_name(c: PieceColor) -> Seq<char> {
    match c {
        PieceColor::White => "White"@,
        PieceColor::Black => "Black"@,
    }
}

fn color_word(c: PieceColor) -> (res: &'static str)
    ensures
        res@ == color_name(c),
{
    match c {
        PieceColor::White => "White",
        PieceColor::Black => "Black",
    }
}

/// The status line for a position whose outcome is `outcome`, with `turn`
/// to move and `check` telling whether that side is in check: the end of the
/// game first, then leaving the opening, then a finished opening, and else
/// whose turn it is, with a check warning.
pub open spec fn status_from(
    outcome: Outcome,
    turn: PieceColor,
    check: bool,
    player: PieceColor,
    idx: usize,
    total: nat,
    deviated: bool,
) -> Seq<char> {
    match outcome {
        Outcome::Checkmate { winner } => "Checkmate! "@ + color_name(winner) + " wins!"@,
        Outcome::Stalemate => "Stalemate — draw!"@,
        Outcome::InProgress => if deviated {
            "Opponent deviated — free play from here"@
        } else if total > 0 && idx >= total {
            "Opening complete! Free play from here"@
        } else {
            let side = color_name(turn);
            let warn = if check { " — CHECK!"@ } else { ""@ };
            if turn == player {
                "Your turn ("@ + side + ")"@ + warn
            } else {
                "Computer thinking ("@ + side + ")"@ + warn
            }
        },
    }
}

/// The status line of the position `fen`.
pub open spec fn status_text(fen: Seq<char>, player: PieceColor, idx: usize, total: nat, deviated: bool) -> Seq<char> {
    status_from(outcome_of(fen), turn_of(fen), check_at(fen), player, idx, total, deviated)
}

/// Builds the status line from the outcome, the side to move and whether it
/// is in check (see [`status_from`]).
pub fn status_line(
    outcome: Outcome,
    turn: PieceColor,
    check: bool,
    player_color: PieceColor,
    idx: usize,
    total: usize,
    deviated: bool,
) -> (res: String)
    ensures
        res@ == status_from(outcome, turn, check, player_color, idx, total as nat, deviated),
{
    match outcome {
        Outcome::Checkmate { winner } => {
            let mut s = "Checkmate! ".to_owned();
            s.append(color_word(winner));
            s.append(" wins!");
            return s;
        },
        Outcome::Stalemate => {
            return "Stalemate — draw!".to_owned();
        },
        Outcome::InProgress => {},
    }
    if deviated {
        return "Opponent deviated — free play from here".to_owned();
    }
    if total > 0 && idx >= total {
        return "Opening complete! Free play from here".to_owned();
    }
    let side = color_word(turn);
    let warn = if check { " — CHECK!" } else { "" };
    let mut s = if turn == player_color {
        "Your turn (".to_owned()
    } else {
        "Computer thinking (".to_owned()
    };
    s.append(side);
    s.append(")");
    s.append(warn);
    s
}

/// Builds the status line shown under the title.
pub fn compute_status(state: &GameState, player_color: PieceColor, idx: usize, total: usize, deviated: bool) -> (res: String)
    ensures
        res@ == status_text(state@, player_color, idx, total as nat, deviated),
{
    status_line(state.outcome(), state.turn(), state.is_in_check(), player_color, idx, total, deviated)
}

/// The status line at the start of a game.
pub open spec fn initial_text(player: PieceColor, has_opening: bool) -> Seq<char> {
    if has_opening {
        if player == PieceColor::White {
            "Your turn ("@ + color_name(player) + ") — follow the opening!"@
        } else {
            "Computer thinking (White)"@
        }
    } else {
        "White to move"@
    }
}

/// Builds the status line at the start of a game: in an opening the user
/// is told to follow it (as White) or that the computer moves first (as
/// Black); in free play, White moves.
pub fn initial_status(player_color: PieceColor, opening: &Option<Opening>) -> (res: String)
    ensures
        res@ == initial_text(player_color, opening is Some),
{
    if opening.is_some() {
        if player_color == PieceColor::White {
            let mut s = "Your turn (".to_owned();
            s.append(color_word(player_color));
            s.append(") — follow the opening!");
            s
        } else {
            "Computer thinking (White)".to_owned()
        }
    } else {
        "White to move".to_owned()
    }
}

/// The book move due at opening progress `idx`, if the line has one.
pub open spec fn book_move_at(book: Option<Seq<OpeningMove>>, idx: usize) -> Option<OpeningMove> {
    match book {
        Some(ms) => if idx < ms.len() { Some(ms[idx as int]) } else { None },
        None => None,
    }
}

/// Length of the opening line (0 in free play).
pub open spec fn book_len(book: Option<Seq<OpeningMove>>) -> nat {
    match book {
        Some(ms) => ms.len(),
        None => 0,
    }
}

/// The position after a click from `from` to `to` (unchanged when no move
/// goes there).
pub open spec fn fen_after_click(fen: Seq<char>, from: u8, to: u8) -> Seq<char> {
    match click_choice(fen, from, to) {
        Some(i) => fen_after(fen, i as usize),
        None => fen,
    }
}

/// Whether `sq` holds a piece of the side to move.
pub open spec fn own_piece(fen: Seq<char>, sq: u8) -> bool {
    piece_on(fen, sq) matches Some((c, _)) && c == turn_of(fen)
}

/// The model after a click on `clicked`.
///
/// Nothing happens while it is the computer's turn or the game is over.
/// With a piece selected, a click on one of its targets is a move: during
/// the opening line (and before any deviation) a move other than the book
/// move is refused, the board stays as it was, and the refusals are counted
/// (the second marks the piece to move, the third the whole move); any other
/// move is played, recorded for undo, and advances the line when it was the
/// book move. A click elsewhere selects another own piece or clears the
/// selection. With nothing selected, a click on an own piece selects it.
pub open spec fn click_model(m: BoardModel, clicked: u8) -> BoardModel {
    if turn_of(m.fen) != m.player || outcome_of(m.fen) != Outcome::InProgress {
        m
    } else {
        match m.selected {
            Some(from) => if m.reachable.contains(clicked) {
                let has_book_move = book_move_at(m.book, m.idx) is Some;
                let is_book_move = match book_move_at(m.book, m.idx) {
                    Some(e) => from == e.from && clicked == e.to,
                    None => false,
                };
                if has_book_move && !is_book_move && !m.deviated {
                    let attempt = m.wrong + 1;
                    BoardModel {
                        wrong: attempt as u32,
                        selected: None,
                        reachable: seq![],
                        hint: if attempt == 1 {
                            m.hint
                        } else if attempt == 2 {
                            HintState::Piece
                        } else {
                            HintState::Full
                        },
                        status: if attempt == 1 {
                            "Not the book move — try again"@
                        } else if attempt == 2 {
                            "Try the highlighted piece"@
                        } else {
                            "Play the highlighted move"@
                        },
                        ..m
                    }
                } else {
                    let fen2 = fen_after_click(m.fen, from, clicked);
                    let idx2 = if has_book_move && is_book_move { (m.idx + 1) as usize } else { m.idx };
                    BoardModel {
                        history: m.history.push((m.fen, m.idx, m.deviated)),
                        fen: fen2,
                        selected: None,
                        reachable: seq![],
                        hint: HintState::Off,
                        wrong: 0,
                        idx: idx2,
                        status: status_text(fen2, m.player, idx2, book_len(m.book), m.deviated),
                        ..m
                    }
                }
            } else if own_piece(m.fen, clicked) {
                BoardModel { selected: Some(clicked), reachable: targets_from(m.fen, clicked), ..m }
            } else {
                BoardModel { selected: None, reachable: seq![], ..m }
            },
            None => if own_piece(m.fen, clicked) {
                BoardModel { selected: Some(clicked), reachable: targets_from(m.fen, clicked), ..m }
            } else {
                m
            },
        }
    }
}

/// The book move that the computer is due to play: the game goes on, it is
/// the computer's turn, play has not left the line, and the line has a move
/// left.
pub open spec fn computer_move_spec(m: BoardModel) -> Option<OpeningMove> {
    if outcome_of(m.fen) != Outcome::InProgress || turn_of(m.fen) == m.player || m.deviated {
        None
    } else {
        book_move_at(m.book, m.idx)
    }
}

/// The model after the computer's book move `mv`, scheduled at generation
/// `seen`: dropped when an undo came in between or the turn or the game is
/// no longer the computer's; else `mv` is played and the line advances.
pub open spec fn computer_move_model(m: BoardModel, seen: u32, mv: OpeningMove) -> BoardModel {
    if m.generation != seen || turn_of(m.fen) == m.player || outcome_of(m.fen) != Outcome::InProgress {
        m
    } else {
        let fen2 = fen_after_click(m.fen, mv.from, mv.to);
        let idx2 = (m.idx + 1) as usize;
        BoardModel {
            fen: fen2,
            idx: idx2,
            status: status_text(fen2, m.player, idx2, book_len(m.book), false),
            wrong: 0,
            ..m
        }
    }
}

/// The model after undo: the last recorded game, progress and deviation
/// come back, and the selection, hint and refusals are cleared; without a
/// record nothing happens.
pub open spec fn undo_model(m: BoardModel) -> BoardModel {
    if m.history.len() == 0 {
        m
    } else {
        let (fen, idx, dev) = m.history.last();
        BoardModel {
            history: m.history.drop_last(),
            generation: (m.generation + 1) as u32,
            fen,
            idx,
            deviated: dev,
            hint: HintState::Off,
            wrong: 0,
            selected: None,
            reachable: seq![],
            status: status_text(fen, m.player, idx, book_len(m.book), dev),
            ..m
        }
    }
}

/// The next hint stage: off, piece, whole move, off.
pub open spec fn next_hint(h: HintState) -> HintState {
    match h {
        HintState::Off => HintState::Piece,
        HintState::Piece => HintState::Full,
        HintState::Full => HintState::Off,
    }
}

/// Whether `x` is in `v`.
fn contains_square(v: &Vec<u8>, x: u8) -> (res: bool)
    ensures
        res == v@.contains(x),
{
    let mut i: usize = 0;
    while i < v.len()
        invariant
            i <= v@.len(),
            forall|k: int| 0 <= k < i ==> v@[k] != x,
        decreases v@.len() - i,
    {
        if v[i] == x {
            assert(v@[i as int] == x);
            return true;
        }
        i = i + 1;
    }
    false
}

impl BoardState {
    /// A new board for the user's side and, in an opening drill, its line.
    pub fn new(player_color: PieceColor, opening: Option<Opening>) -> (res: BoardState)
        ensures
            res.model() == (BoardModel {
                player: player_color,
                book: match opening {
                    Some(o) => Some(o.moves@),
                    None => None,
                },
                fen: crate::engine::start_fen_spec(),
                selected: None,
                reachable: seq![],
                status: initial_text(player_color, opening is Some),
                idx: 0,
                deviated: false,
                hint: HintState::Off,
                wrong: 0,
                history: seq![],
                generation: 0,
            }),
            res.opening == opening,
    {
        let status = initial_status(player_color, &opening);
        let res = BoardState {
            player_color,
            opening,
            game: GameState::new(),
            selected: None,
            reachable: Vec::new(),
            status,
            op_move_idx: 0,
            deviated: false,
            hint: HintState::Off,
            wrong_attempts: 0,
            history: Vec::new(),
            generation: 0,
        };
        assert(history_views(res.history@) =~= seq![]);
        res
    }

    /// Length of the opening line (0 in free play).
    pub fn book_length(&self) -> (res: usize)
        ensures
            res == book_len(self.model().book),
    {
        match &self.opening {
            Some(o) => o.moves.len(),
            None => 0,
        }
    }

    /// The book move at opening progress `idx`, if the line has one.
    pub fn book_move(&self, idx: usize) -> (res: Option<OpeningMove>)
        ensures
            res == book_move_at(self.model().book, idx),
    {
        match &self.opening {
            Some(o) => if idx < o.moves.len() {
                Some(o.moves[idx])
            } else {
                None
            },
            None => None,
        }
    }

    /// Handles a click on square `clicked` (see [`click_model`]).
    pub fn click(&mut self, clicked: u8)
        requires
            old(self).wrong_attempts < u32::MAX,
            old(self).op_move_idx < usize::MAX,
        ensures
            final(self).model() == click_model(old(self).model(), clicked),
            final(self).opening == old(self).opening,
    {
        let turn = self.game.turn();
        if turn != self.player_color {
            return;
        }
        if self.game.outcome() != Outcome::InProgress {
            return;
        }
        match self.selected {
            Some(from) => {
                if contains_square(&self.reachable, clicked) {
                    let idx = self.op_move_idx;
                    let expected = self.book_move(idx);
                    let has_book_move = expected.is_some();
                    let is_book_move = match expected {
                        Some(e) => from == e.from && clicked == e.to,
                        None => false,
                    };
                    if has_book_move && !is_book_move && !self.deviated {
                        let attempt = self.wrong_attempts + 1;
                        self.wrong_attempts = attempt;
                        self.selected = None;
                        self.reachable = Vec::new();
                        if attempt == 1 {
                            self.status = "Not the book move — try again".to_owned();
                        } else if attempt == 2 {
                            self.hint = HintState::Piece;
                            self.status = "Try the highlighted piece".to_owned();
                        } else {
                            self.hint = HintState::Full;
                            self.status = "Play the highlighted move".to_owned();
                        }
                        return;
                    }
                    let ghost before = history_views(self.history@);
                    let snap = self.game.snapshot();
                    self.history.push((snap, self.op_move_idx, self.deviated));
                    assert(history_views(self.history@) =~= before.push((snap@, idx, self.deviated)));
                    self.game.apply_move(from, clicked);
                    self.selected = None;
                    self.reachable = Vec::new();
                    self.hint = HintState::Off;
                    self.wrong_attempts = 0;
                    if has_book_move && is_book_move {
                        self.op_move_idx = self.op_move_idx + 1;
                    }
                    let total = self.book_length();
                    self.status = compute_status(&self.game, self.player_color, self.op_move_idx, total, self.deviated);
                    return;
                }
                match self.game.piece_at(clicked) {
                    Some((c, _)) => {
                        if c == turn {
                            self.selected = Some(clicked);
                            self.reachable = self.game.reachable_squares(clicked);
                            return;
                        }
                    },
                    None => {},
                }
                self.selected = None;
                self.reachable = Vec::new();
            },
            None => {
                match self.game.piece_at(clicked) {
                    Some((c, _)) => {
                        if c == turn {
                            self.selected = Some(clicked);
                            self.reachable = self.game.reachable_squares(clicked);
                        }
                    },
                    None => {},
                }
            },
        }
    }

    /// The book move the computer is due to play now, if any (see
    /// [`computer_move_spec`]).
    pub fn computer_move_due(&self) -> (res: Option<OpeningMove>)
        ensures
            res == computer_move_spec(self.model()),
    {
        if self.game.outcome() != Outcome::InProgress {
            return None;
        }
        if self.game.turn() == self.player_color {
            return None;
        }
        if self.deviated {
            return None;
        }
        self.book_move(self.op_move_idx)
    }

    /// Plays the computer's book move `mv` scheduled at generation `seen`
    /// (see [`computer_move_model`]). The computer moves at most once per
    /// turn: when it acts and its move is legal, the move hands the turn to
    /// the user, so no further computer move is due; a book move that is not
    /// legal in the position leaves the position as it was.
    pub fn play_computer_move(&mut self, seen: u32, mv: OpeningMove)
        requires
            old(self).op_move_idx < usize::MAX,
        ensures
            final(self).model() == computer_move_model(old(self).model(), seen, mv),
            final(self).opening == old(self).opening,
            final(self).op_move_idx != old(self).op_move_idx ==> if has_move(moves_of(old(self).game@), mv.from, mv.to) {
                &&& turn_of(final(self).game@) == final(self).player_color
                &&& computer_move_spec(final(self).model()) is None
            } else {
                final(self).game@ == old(self).game@
            },
    {
        if self.generation != seen {
            return;
        }
        if self.game.turn() == self.player_color {
            return;
        }
        if self.game.outcome() != Outcome::InProgress {
            return;
        }
        self.game.apply_move(mv.from, mv.to);
        self.op_move_idx = self.op_move_idx + 1;
        let total = self.book_length();
        self.status = compute_status(&self.game, self.player_color, self.op_move_idx, total, false);
        self.wrong_attempts = 0;
    }

    /// Takes back the user's last move (see [`undo_model`]).
    pub fn undo(&mut self)
        requires
            old(self).generation < u32::MAX,
        ensures
            final(self).model() == undo_model(old(self).model()),
            final(self).opening == old(self).opening,
    {
        let n = self.history.len();
        if n == 0 {
            return;
        }
        let ghost before = history_views(self.history@);
        let (g, idx, dev) = self.history.pop().unwrap();
        assert(history_views(self.history@) =~= before.drop_last());
        assert(before.last() == (g@, idx, dev));
        self.generation = self.generation + 1;
        self.game = g;
        self.op_move_idx = idx;
        self.deviated = dev;
        self.hint = HintState::Off;
        self.wrong_attempts = 0;
        self.selected = None;
        self.reachable = Vec::new();
        let total = self.book_length();
        self.status = compute_status(&self.game, self.player_color, idx, total, dev);
    }

    /// Moves the hint to its next stage (see [`next_hint`]).
    pub fn toggle_hint(&mut self)
        ensures
            final(self).model() == (BoardModel { hint: next_hint(old(self).hint), ..old(self).model() }),
            final(self).opening == old(self).opening,
    {
        self.hint = match self.hint {
            HintState::Off => HintState::Piece,
            HintState::Piece => HintState::Full,
            HintState::Full => HintState::Off,
        };
    }
}

/// The selection is consistent: with no piece selected no square is marked
/// reachable; a piece is selected only on the user's turn, and then the
/// marked squares are the targets of its legal moves.
pub open spec fn selection_consistent(m: BoardModel) -> bool {
    match m.selected {
        None => m.reachable == Seq::<u8>::empty(),
        Some(s) => m.reachable == targets_from(m.fen, s) && turn_of(m.fen) == m.player,
    }
}

/// Every event keeps the selection consistent: a board with nothing selected
/// (as a new board is) is consistent, and a click, the computer's move, undo
/// and the hint button keep it so.
pub proof fn events_keep_selection_consistent(m: BoardModel, clicked: u8, seen: u32, mv: OpeningMove)
    requires
        selection_consistent(m),
    ensures
        selection_consistent(click_model(m, clicked)),
        selection_consistent(computer_move_model(m, seen, mv)),
        selection_consistent(undo_model(m)),
        selection_consistent(BoardModel { hint: next_hint(m.hint), ..m }),
        selection_consistent(BoardModel { selected: None, reachable: seq![], ..m }),
{
}

/// A click only ever plays a move onto a square that the selected piece can
/// legally reach, and then plays the move that [`GameState::apply_move`]
/// picks for it.
pub proof fn clicks_play_reachable_moves(m: BoardModel, clicked: u8)
    requires
        selection_consistent(m),
    ensures
        click_model(m, clicked).history.len() > m.history.len() ==> (m.selected matches Some(from)
            && targets_from(m.fen, from).contains(clicked)
            && click_model(m, clicked).fen == fen_after_click(m.fen, from, clicked)),
{
}

/// Clicks while it is the computer's turn, or after the game has ended,
/// change nothing.
pub proof fn clicks_ignored_off_turn(m: BoardModel, clicked: u8)
    requires
        turn_of(m.fen) != m.player || outcome_of(m.fen) != Outcome::InProgress,
    ensures
        click_model(m, clicked) == m,
{
}

/// During the opening line, a click never changes the position with a move
/// other than the book move: when the position changes, either no book move
/// was due, play had already left the line, or the move was the book move.
pub proof fn only_book_moves_during_drill(m: BoardModel, clicked: u8)
    ensures
        click_model(m, clicked).fen != m.fen ==> (m.selected matches Some(from) && (
            book_move_at(m.book, m.idx) is None || m.deviated
                || (book_move_at(m.book, m.idx) matches Some(e) && from == e.from && clicked == e.to))),
{
}

/// Undo takes back what a click played: after a click that played a move,
/// undo brings back the position, the opening progress, the deviation flag
/// and the undo record from before the click.
pub proof fn undo_reverses_played_click(m: BoardModel, clicked: u8)
    requires
        click_model(m, clicked).history.len() == m.history.len() + 1,
    ensures
        undo_model(click_model(m, clicked)).fen == m.fen,
        undo_model(click_model(m, clicked)).idx == m.idx,
        undo_model(click_model(m, clicked)).deviated == m.deviated,
        undo_model(click_model(m, clicked)).history == m.history,
{
    let c = click_model(m, clicked);
    assert(c.history == m.history.push((m.fen, m.idx, m.deviated)));
    assert(c.history.drop_last() == m.history);
}

/// A click never moves the opening progress past the end of the line.
pub proof fn click_keeps_progress_in_line(m: BoardModel, clicked: u8)
    requires
        m.idx <= book_len(m.book),
    ensures
        click_model(m, clicked).idx <= book_len(m.book),
        click_model(m, clicked).book == m.book,
{
}

/// Undo cancels a computer move scheduled before it: the move scheduled at
/// the generation before the undo is dropped, and the board stays as the
/// undo left it.
pub proof fn undo_cancels_pending_computer_move(m: BoardModel, mv: OpeningMove)
    requires
        m.history.len() > 0,
        m.generation < u32::MAX,
    ensures
        computer_move_model(undo_model(m), m.generation, mv) == undo_model(m),
{
}

/// Three presses of the hint button bring it back to where it was.
pub proof fn hint_cycles(h: HintState)
    ensures
        next_hint(next_hint(next_hint(h))) == h,
{
}

/// The computer only plays a book move that is due: the move it plays
/// advances the opening progress by one, and with nothing due nothing is
/// scheduled.
pub proof fn computer_plays_due_move(m: BoardModel, mv: OpeningMove)
    requires
        computer_move_spec(m) == Some(mv),
        m.idx < usize::MAX,
    ensures
        computer_move_model(m, m.generation, mv).idx == m.idx + 1,
        book_move_at(m.book, m.idx) == Some(mv),
{
}

/// Refusals of a move other than the book move give a progressive hint: a
/// click that counts a refusal (the count goes up by one) leaves the
/// position, the record for undo and the opening progress alone, clears the
/// selection, and on the first refusal only nudges ("Not the book move —
/// try again") without touching the hint; the second marks the piece to
/// move ("Try the highlighted piece"), and every later one the whole move
/// ("Play the highlighted move").
pub proof fn refusals_hint_progressively(m: BoardModel, clicked: u8)
    ensures
        click_model(m, clicked).wrong == m.wrong + 1 ==> {
            let c = click_model(m, clicked);
            &&& c.fen == m.fen
            &&& c.history == m.history
            &&& c.idx == m.idx
            &&& c.selected is None
            &&& c.reachable.len() == 0
            &&& m.wrong == 0 ==> c.hint == m.hint && c.status == "Not the book move — try again"@
            &&& m.wrong == 1 ==> c.hint == HintState::Piece && c.status == "Try the highlighted piece"@
            &&& m.wrong >= 2 ==> c.hint == HintState::Full && c.status == "Play the highlighted move"@
        },
{
}

/// After the computer's book move the status describes the new position at
/// the new progress: when the move is played (same generation, the
/// computer's turn, game going on) the progress goes up by one and the
/// status is the status line of the resulting position with that progress;
/// so when it was the last move of the line and the game goes on, the
/// status announces the end of the opening.
pub proof fn computer_move_status_counts_the_move(m: BoardModel, mv: OpeningMove)
    requires
        m.idx < usize::MAX,
        turn_of(m.fen) != m.player,
        outcome_of(m.fen) == Outcome::InProgress,
    ensures
        computer_move_model(m, m.generation, mv).idx == m.idx + 1,
        computer_move_model(m, m.generation, mv).status == status_text(
            computer_move_model(m, m.generation, mv).fen,
            m.player,
            (m.idx + 1) as usize,
            book_len(m.book),
            false,
        ),
        m.idx + 1 == book_len(m.book) && outcome_of(computer_move_model(m, m.generation, mv).fen)
            == Outcome::InProgress ==> computer_move_model(m, m.generation, mv).status
            == "Opening complete! Free play from here"@,
{
}

/// Whether every entry of the board walk of `fen` names the piece that
/// stands on its square (as [`GameState::all_pieces`] ensures).
pub open spec fn pieces_agree(fen: Seq<char>) -> bool {
    forall|i: int| 0 <= i < pieces_of(fen).len()
        ==> piece_on(fen, #[trigger] pieces_of(fen)[i].0) == Some((pieces_of(fen)[i].1, pieces_of(fen)[i].2))
}

proof fn lemma_king_index(ps: Seq<(u8, PieceColor, PieceRole)>, c: PieceColor, k: int)
    requires
        0 <= k,
    ensures
        king_index(ps, c, k) matches Some(i) ==> k <= i < ps.len() && ps[i].1 == c && ps[i].2 == PieceRole::King,
    decreases ps.len() - k,
{
    if k < ps.len() && !(ps[k].1 == c && ps[k].2 == PieceRole::King) {
        lemma_king_index(ps, c, k + 1);
    }
}

/// The red square holds the king of the side to move: whenever a square is
/// reported, the piece on it is a king of the side whose turn it is.
pub proof fn check_square_is_own_king(fen: Seq<char>)
    requires
        pieces_agree(fen),
    ensures
        check_square_spec(fen) matches Some(s) ==> piece_on(fen, s) == Some((turn_of(fen), PieceRole::King)),
{
    lemma_king_index(pieces_of(fen), turn_of(fen), 0);
    if let Some(i) = king_index(pieces_of(fen), turn_of(fen), 0) {
        assert(piece_on(fen, pieces_of(fen)[i].0) == Some((pieces_of(fen)[i].1, pieces_of(fen)[i].2)));
    }
}

/// The glyph of a piece: outlined for White, filled for Black.
pub open spec fn glyph_of(color: PieceColor, role: PieceRole) -> Seq<char> {
    match (color, role) {
        (PieceColor::White, PieceRole::King) => "♔"@,
        (PieceColor::White, PieceRole::Queen) => "♕"@,
        (PieceColor::White, PieceRole::Rook) => "♖"@,
        (PieceColor::White, PieceRole::Bishop) => "♗"@,
        (PieceColor::White, PieceRole::Knight) => "♘"@,
        (PieceColor::White, PieceRole::Pawn) => "♙"@,
        (PieceColor::Black, PieceRole::King) => "♚"@,
        (PieceColor::Black, PieceRole::Queen) => "♛"@,
        (PieceColor::Black, PieceRole::Rook) => "♜"@,
        (PieceColor::Black, PieceRole::Bishop) => "♝"@,
        (PieceColor::Black, PieceRole::Knight) => "♞"@,
        (PieceColor::Black, PieceRole::Pawn) => "♟"@,
    }
}

/// The Unicode glyph of a piece.
pub fn piece_glyph(color: PieceColor, role: PieceRole) -> (res: &'static str)
    ensures
        res@ == glyph_of(color, role),
{
    match (color, role) {
        (PieceColor::White, PieceRole::King) => "♔",
        (PieceColor::White, PieceRole::Queen) => "♕",
        (PieceColor::White, PieceRole::Rook) => "♖",
        (PieceColor::White, PieceRole::Bishop) => "♗",
        (PieceColor::White, PieceRole::Knight) => "♘",
        (PieceColor::White, PieceRole::Pawn) => "♙",
        (PieceColor::Black, PieceRole::King) => "♚",
        (PieceColor::Black, PieceRole::Queen) => "♛",
        (PieceColor::Black, PieceRole::Rook) => "♜",
        (PieceColor::Black, PieceRole::Bishop) => "♝",
        (PieceColor::Black, PieceRole::Knight) => "♞",
        (PieceColor::Black, PieceRole::Pawn) => "♟",
    }
}

/// The square at `file` (0 for `a`) and `rank` (0 for the first rank).
pub fn coords_to_sq(file: u8, rank: u8) -> (res: u8)
    requires
        file < 8,
        rank < 8,
    ensures
        res == file + 8 * rank,
{
    file + 8 * rank
}

/// File and rank of a square.
pub fn sq_file_rank(sq: u8) -> (res: (u8, u8))
    requires
        sq < 64,
    ensures
        res == ((sq % 8) as u8, (sq / 8) as u8),
        coords_to_sq_spec(res.0, res.1) == sq,
{
    (sq % 8, sq / 8)
}

pub open spec fn coords_to_sq_spec(file: u8, rank: u8) -> int {
    file + 8 * rank
}

/// Ranks from the top of the screen down: rank 8 first for White, rank 1
/// first for Black.
pub fn display_ranks(player_color: PieceColor) -> (res: Vec<u8>)
    ensures
        res@.len() == 8,
        forall|i: int| 0 <= i < 8 ==> #[trigger] res@[i] == if player_color == PieceColor::White { 7 - i } else { i },
{
    let mut v: Vec<u8> = Vec::new();
    let mut i: u8 = 0;
    while i < 8
        invariant
            i <= 8,
            v@.len() == i,
            forall|k: int| 0 <= k < i ==> #[trigger] v@[k] == if player_color == PieceColor::White { 7 - k } else { k },
        decreases 8 - i,
    {
        if player_color == PieceColor::White {
            v.push(7 - i);
        } else {
            v.push(i);
        }
        i = i + 1;
    }
    v
}

/// Files from left to right: `a` first for White, `h` first for Black.
pub fn display_files(player_color: PieceColor) -> (res: Vec<u8>)
    ensures
        res@.len() == 8,
        forall|i: int| 0 <= i < 8 ==> #[trigger] res@[i] == if player_color == PieceColor::White { i } else { 7 - i },
{
    let mut v: Vec<u8> = Vec::new();
    let mut i: u8 = 0;
    while i < 8
        invariant
            i <= 8,
            v@.len() == i,
            forall|k: int| 0 <= k < i ==> #[trigger] v@[k] == if player_color == PieceColor::White { k } else { 7 - k },
        decreases 8 - i,
    {
        if player_color == PieceColor::White {
            v.push(i);
        } else {
            v.push(7 - i);
        }
        i = i + 1;
    }
    v
}

/// The letter of a file, `a` to `h`.
pub fn file_letter(file: u8) -> (res: char)
    requires
        file < 8,
    ensures
        res as u32 == 97 + file,
{
    let c = if file == 0 { 'a' } else if file == 1 { 'b' } else if file == 2 { 'c' } else if file == 3 {
        'd'
    } else if file == 4 { 'e' } else if file == 5 { 'f' } else if file == 6 { 'g' } else { 'h' };
    c
}

/// Whether a square is drawn light: file plus rank is odd.
pub fn is_light_square(file: u8, rank: u8) -> (res: bool)
    requires
        file < 8,
        rank < 8,
    ensures
        res == ((file + rank) % 2 == 1),
{
    (file + rank) % 2 == 1
}

/// How a square is coloured.
#[derive(Clone, Copy, Debug, PartialEq, Eq, Structural)]
pub enum SquareShade {
    Selected,
    Check,
    HintFrom,
    HintTo,
    Light,
    Dark,
}

/// The colour of a square: selected first, then a king in check, the hint's
/// origin, the hint's target, and else the board's light or dark colour.
pub open spec fn shade_of(selected: bool, check: bool, hint_from: bool, hint_to: bool, light: bool) -> SquareShade {
    if selected {
        SquareShade::Selected
    } else if check {
        SquareShade::Check
    } else if hint_from {
        SquareShade::HintFrom
    } else if hint_to {
        SquareShade::HintTo
    } else if light {
        SquareShade::Light
    } else {
        SquareShade::Dark
    }
}

/// Decides how a square is coloured.
pub fn square_shade(selected: bool, check: bool, hint_from: bool, hint_to: bool, light: bool) -> (res: SquareShade)
    ensures
        res == shade_of(selected, check, hint_from, hint_to, light),
{
    if selected {
        SquareShade::Selected
    } else if check {
        SquareShade::Check
    } else if hint_from {
        SquareShade::HintFrom
    } else if hint_to {
        SquareShade::HintTo
    } else if light {
        SquareShade::Light
    } else {
        SquareShade::Dark
    }
}

/// The colour a square is drawn in: yellow when selected, red for a king in
/// check, violet and light violet for the hint's squares, cream and brown
/// for light and dark squares.
pub fn shade_color(shade: SquareShade) -> (res: &'static str)
    ensures
        res@ == match shade {
            SquareShade::Selected => "#f6f669"@,
            SquareShade::Check => "#e63946"@,
            SquareShade::HintFrom => "#7b61ff"@,
            SquareShade::HintTo => "#a599ff"@,
            SquareShade::Light => "#f0d9b5"@,
            SquareShade::Dark => "#b58863"@,
        },
{
    match shade {
        SquareShade::Selected => "#f6f669",
        SquareShade::Check => "#e63946",
        SquareShade::HintFrom => "#7b61ff",
        SquareShade::HintTo => "#a599ff",
        SquareShade::Light => "#f0d9b5",
        SquareShade::Dark => "#b58863",
    }
}

/// The squares the hint marks: none while the hint is off or it is not the
/// user's turn; else the origin of the due book move, and with the full
/// hint also its target.
pub open spec fn hint_squares_spec(m: BoardModel) -> (Option<u8>, Option<u8>) {
    if m.hint == HintState::Off || turn_of(m.fen) != m.player {
        (None, None)
    } else {
        match book_move_at(m.book, m.idx) {
            Some(mv) => (Some(mv.from), if m.hint == HintState::Full { Some(mv.to) } else { None }),
            None => (None, None),
        }
    }
}

/// Index of the first entry of `ps` at or after `k` that is a king of
/// colour `c`.
pub open spec fn king_index(ps: Seq<(u8, PieceColor, PieceRole)>, c: PieceColor, k: int) -> Option<int>
    decreases ps.len() - k,
{
    if k < 0 || k >= ps.len() {
        None
    } else if ps[k].1 == c && ps[k].2 == PieceRole::King {
        Some(k)
    } else {
        king_index(ps, c, k + 1)
    }
}

/// The square drawn red: the king of the side to move, when it is in check.
pub open spec fn check_square_spec(fen: Seq<char>) -> Option<u8> {
    if check_at(fen) {
        match king_index(pieces_of(fen), turn_of(fen), 0) {
            Some(i) => Some(pieces_of(fen)[i].0),
            None => None,
        }
    } else {
        None
    }
}

/// The square of the first king of colour `c` in `ps`, if there is one.
pub fn king_square(ps: &Vec<(u8, PieceColor, PieceRole)>, c: PieceColor) -> (res: Option<u8>)
    ensures
        res == (match king_index(ps@, c, 0) {
            Some(i) => Some(ps@[i].0),
            None => None,
        }),
{
    let mut i: usize = 0;
    while i < ps.len()
        invariant
            i <= ps@.len(),
            king_index(ps@, c, 0) == king_index(ps@, c, i as int),
        decreases ps@.len() - i,
    {
        let (sq, pc, r) = ps[i];
        if pc == c && r == PieceRole::King {
            assert(king_index(ps@, c, i as int) == Some(i as int));
            return Some(sq);
        }
        i = i + 1;
    }
    None
}

impl BoardState {
    /// The squares the hint marks (see [`hint_squares_spec`]).
    pub fn hint_squares(&self) -> (res: (Option<u8>, Option<u8>))
        ensures
            res == hint_squares_spec(self.model()),
    {
        if self.hint == HintState::Off {
            return (None, None);
        }
        if self.game.turn() != self.player_color {
            return (None, None);
        }
        match self.book_move(self.op_move_idx) {
            Some(mv) => (Some(mv.from), if self.hint == HintState::Full { Some(mv.to) } else { None }),
            None => (None, None),
        }
    }

    /// The square of the king in check, if the side to move is in check.
    pub fn check_square(&self) -> (res: Option<u8>)
        ensures
            res == check_square_spec(self.game@),
            res matches Some(s) ==> piece_on(self.game@, s) == Some((turn_of(self.game@), PieceRole::King)),
            res is Some ==> check_at(self.game@),
    {
        if !self.game.is_in_check() {
            return None;
        }
        let ps = self.game.all_pieces();
        proof {
            assert forall|i: int| 0 <= i < pieces_of(self.game@).len() implies piece_on(
                self.game@,
                #[trigger] pieces_of(self.game@)[i].0,
            ) == Some((pieces_of(self.game@)[i].1, pieces_of(self.game@)[i].2)) by {
                assert(ps@[i] == pieces_of(self.game@)[i]);
            }
            check_square_is_own_king(self.game@);
        }
        king_square(&ps, self.game.turn())
    }

    /// The move counter of the opening header: `move {done}/{total}`, with
    /// the progress capped at the line's length.
    pub fn move_counter(&self) -> (res: String)
        ensures
            res@ == "move "@ + decimal(if self.op_move_idx <= book_len(self.model().book) {
                self.op_move_idx as nat
            } else {
                book_len(self.model().book)
            }) + "/"@ + decimal(book_len(self.model().book)),
    {
        let total = self.book_length();
        let done = if self.op_move_idx <= total { self.op_move_idx } else { total };
        let mut s = "move ".to_owned();
        push_decimal(&mut s, done as u64);
        s.append("/");
        push_decimal(&mut s, total as u64);
        s
    }
}

/// The label of the hint button for a stage.
pub fn hint_label(h: HintState) -> (res: &'static str)
    ensures
        res@ == match h {
            HintState::Off => "💡 Hint"@,
            HintState::Piece => "💡 Piece"@,
            HintState::Full => "💡 Move"@,
        },
{
    match h {
        HintState::Off => "💡 Hint",
        HintState::Piece => "💡 Piece",
        HintState::Full => "💡 Move",
    }
}

} // verus!
