//! Plain values for colours, piece kinds, squares and moves.
//!
//! A square is its index `0..64`: `a1` is 0, `b1` is 1, ..., `h8` is 63,
//! so that `file == sq % 8` and `rank == sq / 8`.

use vstd::prelude::*;

verus! {

/// The side a piece belongs to.
#[derive(Clone, Copy, Debug, PartialEq, Eq, Structural, Hash)]
pub enum PieceColor {
    White,
    Black,
}

/// The kind of a piece.
#[derive(Clone, Copy, Debug, PartialEq, Eq, Structural, Hash)]
pub enum PieceRole {
    Pawn,
    Knight,
    Bishop,
    Rook,
    Queen,
    King,
}

impl PieceColor {
    pub open spec fn opposite(self) -> PieceColor {
        match self {
            PieceColor::White => PieceColor::Black,
            PieceColor::Black => PieceColor::White,
        }
    }

    /// The other side.
    pub fn other(self) -> (res: PieceColor)
        ensures
            res == self.opposite(),
    {
        match self {
            PieceColor::White => PieceColor::Black,
            PieceColor::Black => PieceColor::White,
        }
    }
}

/// The colour that the engine reports as a "is white" flag.
pub open spec fn color_of_flag(white: bool) -> PieceColor {
    if white {
        PieceColor::White
    } else {
        PieceColor::Black
    }
}

pub fn color_from_flag(white: bool) -> (res: PieceColor)
    ensures
        res == color_of_flag(white),
{
    if white {
        PieceColor::White
    } else {
        PieceColor::Black
    }
}

/// The piece kind behind the engine's role number (pawn 1, knight 2,
/// bishop 3, rook 4, queen 5, king 6).
pub open spec fn role_of_code(code: u8) -> PieceRole {
    if code == 1 {
        PieceRole::Pawn
    } else if code == 2 {
        PieceRole::Knight
    } else if code == 3 {
        PieceRole::Bishop
    } else if code == 4 {
        PieceRole::Rook
    } else if code == 5 {
        PieceRole::Queen
    } else {
        PieceRole::King
    }
}

pub fn role_from_code(code: u8) -> (res: PieceRole)
    ensures
        res == role_of_code(code),
{
    if code == 1 {
        PieceRole::Pawn
    } else if code == 2 {
        PieceRole::Knight
    } else if code == 3 {
        PieceRole::Bishop
    } else if code == 4 {
        PieceRole::Rook
    } else if code == 5 {
        PieceRole::Queen
    } else {
        PieceRole::King
    }
}

/// A move as the engine reports it: origin square (none only for drops,
/// which standard chess does not have), target square (for castling, the
/// square of the rook), and the promotion piece if any.
#[derive(Clone, Copy, Debug, PartialEq, Eq, Structural, Hash)]
pub struct ChessMove {
    pub from: Option<u8>,
    pub to: u8,
    pub promotion: Option<PieceRole>,
}

/// A move in the engine's numeric form: origin, target, promotion role number.
pub type MoveCode = (Option<u8>, u8, Option<u8>);

pub open spec fn move_of_code(code: MoveCode) -> ChessMove {
    ChessMove {
        from: code.0,
        to: code.1,
        promotion: match code.2 {
            Some(r) => Some(role_of_code(r)),
            None => None,
        },
    }
}

pub fn move_from_code(code: MoveCode) -> (res: ChessMove)
    ensures
        res == move_of_code(code),
{
    ChessMove {
        from: code.0,
        to: code.1,
        promotion: match code.2 {
            Some(r) => Some(role_from_code(r)),
            None => None,
        },
    }
}

/// A piece on the board in the engine's form: white flag and role number.
pub open spec fn piece_of_code(code: (bool, u8)) -> (PieceColor, PieceRole) {
    (color_of_flag(code.0), role_of_code(code.1))
}

pub fn piece_from_code(code: (bool, u8)) -> (res: (PieceColor, PieceRole))
    ensures
        res == piece_of_code(code),
{
    (color_from_flag(code.0), role_from_code(code.1))
}

} // verus!
