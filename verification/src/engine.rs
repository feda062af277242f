//! Calls into `shakmaty`. A position is carried as the FEN text that
//! `shakmaty` writes for it (`EnPassantMode::Legal`); each call reads the FEN
//! with `CastlingMode::Standard`, runs one operation and hands back plain
//! values. A text that does not describe a position reads as no position:
//! then no call below panics, and each says what it answers.

use vstd::prelude::*;
use shakmaty::{CastlingMode, Chess, EnPassantMode, Position};
use shakmaty::fen::Fen;
use shakmaty::san::San;
use crate::pieces::MoveCode;

verus! {

/// FEN of the standard starting position.
pub open spec fn start_fen_spec() -> Seq<char> {
    "rnbqkbnr/pppppppp/8/8/8/8/PPPPPPPP/RNBQKBNR w KQkq - 0 1"@
}

/// What `Fen::from_position` writes for the position that `fen` describes,
/// or `None` where `Fen` parsing or `Fen::into_position` rejects it.
pub uninterp spec fn fen_position(fen: Seq<char>) -> Option<Seq<char>>;

/// `Position::legal_moves`, in the engine's order.
pub uninterp spec fn legal_move_codes(fen: Seq<char>) -> Seq<MoveCode>;

/// The FEN after `Position::play_unchecked` of legal move number `index`.
pub uninterp spec fn fen_after(fen: Seq<char>, index: usize) -> Seq<char>;

/// `Position::turn` is white.
pub uninterp spec fn white_to_move(fen: Seq<char>) -> bool;

/// `Position::is_check`.
pub uninterp spec fn check_at(fen: Seq<char>) -> bool;

/// `Board::piece_at`: white flag and role number.
pub uninterp spec fn piece_code_at(fen: Seq<char>, sq: u8) -> Option<(bool, u8)>;

/// `Board::iter`: square, white flag and role number of every piece.
pub uninterp spec fn board_codes(fen: Seq<char>) -> Seq<(u8, bool, u8)>;

/// `San::from_ascii` of `san`, then `San::to_move` in the position.
pub uninterp spec fn san_move_code(fen: Seq<char>, san: Seq<char>) -> Option<MoveCode>;

/// `Chess::default()` written by `Fen::from_position` (`EnPassantMode::Legal`):
/// the standard starting position, whose FEN is the literal above.
#[verifier::external_body]
pub(crate) fn start_fen() -> (res: String)
    ensures
        res@ == start_fen_spec(),
{
    Fen::from_position(&Chess::default(), EnPassantMode::Legal).to_string()
}

/// Parses `fen` (`Fen::from_str`), sets it up with
/// `Fen::into_position(CastlingMode::Standard)` and writes the position back
/// with `Fen::from_position` (`EnPassantMode::Legal`). The result is named,
/// not stated.
#[verifier::external_body]
pub(crate) fn read_fen(fen: &str) -> (res: Option<String>)
    ensures
        res matches Some(s) ==> fen_position(fen@) == Some(s@),
        res is None ==> fen_position(fen@) is None,
{
    let pos: Chess = fen.parse::<Fen>().ok()?.into_position(CastlingMode::Standard).ok()?;
    Some(Fen::from_position(&pos, EnPassantMode::Legal).to_string())
}

/// Whether, for every move of `codes` that promotes, the queen promotion
/// with the same origin and target is among `codes` too.
pub open spec fn queen_with_every_promotion(codes: Seq<MoveCode>) -> bool {
    forall|i: int| 0 <= i < codes.len() && (#[trigger] codes[i]).2 is Some
        ==> codes.contains((codes[i].0, codes[i].1, Some(5u8)))
}

/// Whether no move code occurs twice in `codes`.
pub open spec fn codes_distinct(codes: Seq<MoveCode>) -> bool {
    forall|i: int, j: int| 0 <= i < j < codes.len() ==> #[trigger] codes[i] != #[trigger] codes[j]
}

/// Whether two codes of `codes` with the same origin and target either both
/// promote or both do not.
pub open spec fn promotion_by_squares(codes: Seq<MoveCode>) -> bool {
    forall|i: int, j: int|
        0 <= i < codes.len() && 0 <= j < codes.len() && (#[trigger] codes[i]).0 == (#[trigger] codes[j]).0
            && codes[i].1 == codes[j].1 ==> (codes[i].2 is Some <==> codes[j].2 is Some)
}

/// `Position::legal_moves` as (origin, target, promotion role number), in the
/// order that `shakmaty` generates them; empty where `fen` is no position.
///
/// The last two clauses follow from how `Chess::legal_moves` generates
/// moves. All moves from one square come from the one piece standing there.
/// A pawn's moves onto a back rank are only made by `push_promotions` (one
/// each of queen, rook, bishop, knight), its other moves (`captures &
/// !BACKRANKS`, single and double pushes off the back ranks, en passant onto
/// the third or sixth rank) never promote, and no other piece promotes. Each
/// generator yields each target once; a pawn capture needs an enemy piece
/// where en passant needs the empty ep square; a king's ordinary moves
/// exclude its own rooks, onto which `Move::Castle` goes; `retain` only
/// drops moves. So no code repeats, and moves with the same origin and
/// target all promote or none does.
/// For `Chess` a promotion is only generated by `push_promotions`, which
/// pushes the queen, rook, bishop and knight promotions of one origin and
/// target together, and the only later filter (`is_safe`) judges a
/// `Move::Normal` by its origin and target alone; so with any promotion the
/// queen promotion stays, which the second clause states (queen is role 5).
#[verifier::external_body]
pub(crate) fn legal_moves_in(fen: &str) -> (res: Vec<MoveCode>)
    ensures
        res@ == legal_move_codes(fen@),
        queen_with_every_promotion(res@),
        codes_distinct(res@),
        promotion_by_squares(res@),
{
    let Some(pos) = fen.parse::<Fen>().ok().and_then(|f| f.into_position::<Chess>(CastlingMode::Standard).ok()) else {
        return Vec::new();
    };
    pos.legal_moves().iter().map(|m| (m.from().map(|s| s as u8), m.to() as u8, m.promotion().map(|r| r as u8))).collect()
}

/// Plays legal move number `index` with `Position::play_unchecked` and writes
/// the new position with `Fen::from_position` (`EnPassantMode::Legal`).
/// `play_unchecked` ends by handing the turn to the other side
/// (`*turn = !color`), which the second clause states.
#[verifier::external_body]
pub(crate) fn play_legal_move(fen: &str, index: usize) -> (res: String)
    requires
        index < legal_move_codes(fen@).len(),
    ensures
        res@ == fen_after(fen@, index),
        white_to_move(res@) == !white_to_move(fen@),
{
    let Some(mut pos) = fen.parse::<Fen>().ok().and_then(|f| f.into_position::<Chess>(CastlingMode::Standard).ok()) else {
        return fen.to_string();
    };
    let m = pos.legal_moves()[index];
    pos.play_unchecked(m);
    Fen::from_position(&pos, EnPassantMode::Legal).to_string()
}

/// `Position::turn() == Color::White`; `true` where `fen` is no position.
#[verifier::external_body]
pub(crate) fn white_moves_in(fen: &str) -> (res: bool)
    ensures
        res == white_to_move(fen@),
{
    let Some(pos) = fen.parse::<Fen>().ok().and_then(|f| f.into_position::<Chess>(CastlingMode::Standard).ok()) else {
        return true;
    };
    pos.turn().is_white()
}

/// `Position::is_check`; `false` where `fen` is no position.
#[verifier::external_body]
pub(crate) fn check_in(fen: &str) -> (res: bool)
    ensures
        res == check_at(fen@),
{
    let Some(pos) = fen.parse::<Fen>().ok().and_then(|f| f.into_position::<Chess>(CastlingMode::Standard).ok()) else {
        return false;
    };
    pos.is_check()
}

/// `Position::is_checkmate`: for `Chess` it is `!checkers().is_empty() &&
/// legal_moves().is_empty()`, and `is_check` is `checkers().any()`, which the
/// clause states. Where `fen` is no position there is no check and no legal
/// move (as `check_in` and `legal_moves_in` answer), so `false`.
#[verifier::external_body]
pub(crate) fn checkmate_in(fen: &str) -> (res: bool)
    ensures
        res == (check_at(fen@) && legal_move_codes(fen@).len() == 0),
{
    let Some(pos) = fen.parse::<Fen>().ok().and_then(|f| f.into_position::<Chess>(CastlingMode::Standard).ok()) else {
        return false;
    };
    pos.is_checkmate()
}

/// `Position::is_stalemate`: `checkers().is_empty() && !is_variant_end() &&
/// legal_moves().is_empty()`, where `Chess::is_variant_end` is `false`, which
/// the clause states. Where `fen` is no position there is no check and no
/// legal move (as `check_in` and `legal_moves_in` answer), so `true`.
#[verifier::external_body]
pub(crate) fn stalemate_in(fen: &str) -> (res: bool)
    ensures
        res == (!check_at(fen@) && legal_move_codes(fen@).len() == 0),
{
    let Some(pos) = fen.parse::<Fen>().ok().and_then(|f| f.into_position::<Chess>(CastlingMode::Standard).ok()) else {
        return true;
    };
    pos.is_stalemate()
}

/// `Board::piece_at` as (white flag, role number); `None` where `fen` is no
/// position. Role numbers are the discriminants of `shakmaty::Role`, 1 to 6.
#[verifier::external_body]
pub(crate) fn piece_in(fen: &str, sq: u8) -> (res: Option<(bool, u8)>)
    requires
        sq < 64,
    ensures
        res == piece_code_at(fen@, sq),
{
    let pos: Chess = fen.parse::<Fen>().ok()?.into_position(CastlingMode::Standard).ok()?;
    pos.board().piece_at(shakmaty::Square::new(sq as u32)).map(|p| (p.color.is_white(), p.role as u8))
}

/// `Board::iter` as (square, white flag, role number); empty where `fen` is
/// no position. `Board::iter` walks the occupied squares from `a1` upwards
/// and reports for each the piece that `Board::piece_at` reports, which the
/// last three clauses state (a `Square` is below 64).
#[verifier::external_body]
pub(crate) fn pieces_in(fen: &str) -> (res: Vec<(u8, bool, u8)>)
    ensures
        res@ == board_codes(fen@),
        forall|i: int| 0 <= i < res@.len() ==> piece_code_at(fen@, #[trigger] res@[i].0) == Some((res@[i].1, res@[i].2)),
        forall|i: int, j: int| 0 <= i < j < res@.len() ==> res@[i].0 < res@[j].0,
        forall|i: int| 0 <= i < res@.len() ==> #[trigger] res@[i].0 < 64,
{
    let Some(pos) = fen.parse::<Fen>().ok().and_then(|f| f.into_position::<Chess>(CastlingMode::Standard).ok()) else {
        return Vec::new();
    };
    pos.board().iter().map(|(sq, p)| (sq as u8, p.color.is_white(), p.role as u8)).collect()
}

/// `San::from_ascii` of the token's bytes, then `San::to_move` in the
/// position; `None` where either fails or `fen` is no position. `to_move`
/// picks its move from `Position::legal_moves` (through `san_candidates` or
/// `castling_moves`), which the second clause states.
#[verifier::external_body]
pub(crate) fn san_move_in(fen: &str, san: &str) -> (res: Option<MoveCode>)
    ensures
        res == san_move_code(fen@, san@),
        res matches Some(m) ==> legal_move_codes(fen@).contains(m),
{
    let pos: Chess = fen.parse::<Fen>().ok()?.into_position(CastlingMode::Standard).ok()?;
    let m = San::from_ascii(san.as_bytes()).ok()?.to_move(&pos).ok()?;
    Some((m.from().map(|s| s as u8), m.to() as u8, m.promotion().map(|r| r as u8)))
}

} // verus!
