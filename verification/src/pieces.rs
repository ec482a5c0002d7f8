//! Pieces and the handles by which a board refers to them.

use vstd::prelude::*;

verus! {

/// A square of the board as `(row, col)`. Row 0 is White's back rank.
pub type Square = (usize, usize);

/// Number of rows, and of columns, of the board.
pub const BOARD_SIZE: usize = 8;

/// The kind of a piece.
#[derive(Clone, Copy, Debug, PartialEq, Eq, Structural)]
pub enum PieceType {
    Pawn,
    Rook,
    Knight,
    Bishop,
    Queen,
    King,
}

/// The side a piece belongs to.
#[derive(Clone, Copy, Debug, PartialEq, Eq, Structural)]
pub enum PieceColor {
    White,
    Black,
}

/// A handle to a piece: its index in the board's registry of pieces.
///
/// A board never hands out the records themselves, only handles, and a
/// handle stays valid for the whole life of the board that issued it.
#[derive(Clone, Copy, Debug, PartialEq, Eq, Structural)]
pub struct PieceRef(pub usize);

/// The record kept for one piece.
#[derive(Clone, Copy, Debug, PartialEq, Eq)]
pub struct Piece {
    pub piece_type: PieceType,
    pub piece_color: PieceColor,
    /// The square the piece stands on, or stood on when it was captured.
    pub position: Square,
    /// Set by the piece's first move and never cleared.
    pub has_moved: bool,
    /// Set when another piece lands on this one's square and never cleared.
    pub is_captured: bool,
}

/// Whether `square` lies on the board.
pub open spec fn on_board(square: Square) -> bool {
    square.0 < BOARD_SIZE && square.1 < BOARD_SIZE
}

impl Piece {
    /// A piece as it is at setup: never moved, not captured.
    pub fn new(piece_type: PieceType, piece_color: PieceColor, position: Square) -> (piece: Piece)
        ensures
            piece == (Piece {
                piece_type,
                piece_color,
                position,
                has_moved: false,
                is_captured: false,
            }),
    {
        Piece { piece_type, piece_color, position, has_moved: false, is_captured: false }
    }

    /// The state this piece is in after a move has taken it to `to`.
    pub open spec fn moved_to(self, to: Square) -> Piece {
        Piece { position: to, has_moved: true, ..self }
    }

    /// The state this piece is in after it has been captured.
    pub open spec fn captured(self) -> Piece {
        Piece { is_captured: true, ..self }
    }
}

} // verus!
