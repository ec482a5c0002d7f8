//! Move legality: a pure decision on a piece, two squares and whether the
//! destination is occupied. Nothing here looks at the rest of the board,
//! at whose turn it is, or at checks.

use vstd::prelude::*;
use crate::pieces::{on_board, Piece, PieceColor, PieceRef, PieceType, Square, BOARD_SIZE};

verus! {

/// The row direction in which pawns of `color` advance: White towards
/// higher rows, Black towards lower ones.
pub open spec fn forward(color: PieceColor) -> int {
    match color {
        PieceColor::White => 1,
        PieceColor::Black => -1,
    }
}

/// The pawn rule. With `dy` and `dx` the signed row and column distance of
/// the move, a pawn may
/// - step one row forward in its column onto an empty square,
/// - step two rows forward in its column onto an empty square, as long as
///   it has never moved (the square it passes over is not looked at),
/// - step one row forward and one column sideways onto an occupied square.
pub open spec fn pawn_move(
    color: PieceColor,
    has_moved: bool,
    from: Square,
    to: Square,
    occupied: bool,
) -> bool {
    let dy = to.0 - from.0;
    let dx = to.1 - from.1;
    ||| dy == forward(color) && dx == 0 && !occupied
    ||| dy == 2 * forward(color) && dx == 0 && !occupied && !has_moved
    ||| dy == forward(color) && (dx == 1 || dx == -1) && occupied
}

/// Whether `piece`, standing on `from`, may move to `to`, where `occupied`
/// says whether some piece stands on `to`.
///
/// Both squares must lie on the board and differ. Only pawns have a rule so
/// far; every other kind of piece is refused every move.
pub open spec fn legal_move(piece: Piece, from: Square, to: Square, occupied: bool) -> bool {
    &&& on_board(from)
    &&& on_board(to)
    &&& from != to
    &&& match piece.piece_type {
        PieceType::Pawn => pawn_move(piece.piece_color, piece.has_moved, from, to, occupied),
        PieceType::Rook => false,
        PieceType::Knight => false,
        PieceType::Bishop => false,
        PieceType::Queen => false,
        PieceType::King => false,
    }
}

/// The square that mirrors `square` across the middle of the board, rank
/// for rank: what White sees from its side, Black sees there from its own.
pub open spec fn mirrored(square: Square) -> Square
    recommends
        on_board(square),
{
    ((BOARD_SIZE - 1 - square.0) as usize, square.1)
}

fn pawn_rule(piece: &Piece, from: Square, to: Square, occupied: bool) -> (legal: bool)
    requires
        on_board(from),
        on_board(to),
    ensures
        legal == pawn_move(piece.piece_color, piece.has_moved, from, to, occupied),
{
    let dy: i32 = to.0 as i32 - from.0 as i32;
    let dx: i32 = to.1 as i32 - from.1 as i32;
    let ahead: i32 = match piece.piece_color {
        PieceColor::White => 1,
        PieceColor::Black => -1,
    };
    if dy == ahead && dx == 0 {
        !occupied
    } else if dy == 2 * ahead && dx == 0 {
        !occupied && !piece.has_moved
    } else if dy == ahead && (dx == 1 || dx == -1) {
        occupied
    } else {
        false
    }
}

/// Decides whether `piece` may move from `old_pos` to `new_pos`, given the
/// occupant of `new_pos`, if there is one. Changes nothing.
pub fn is_valid_move(
    piece: &Piece,
    old_pos: Square,
    new_pos: Square,
    occupant: &Option<PieceRef>,
) -> (legal: bool)
    ensures
        legal == legal_move(*piece, old_pos, new_pos, occupant is Some),
        old_pos == new_pos ==> !legal,
        piece.piece_type != PieceType::Pawn ==> !legal,
{
    if old_pos.0 >= BOARD_SIZE || old_pos.1 >= BOARD_SIZE {
        return false;
    }
    if new_pos.0 >= BOARD_SIZE || new_pos.1 >= BOARD_SIZE {
        return false;
    }
    if old_pos.0 == new_pos.0 && old_pos.1 == new_pos.1 {
        return false;
    }
    match piece.piece_type {
        PieceType::Pawn => pawn_rule(piece, old_pos, new_pos, occupant.is_some()),
        PieceType::Rook => false,
        PieceType::Knight => false,
        PieceType::Bishop => false,
        PieceType::Queen => false,
        PieceType::King => false,
    }
}

/// Staying put is never a move: no piece may "move" to the square it is on.
pub proof fn lemma_null_move_illegal(piece: Piece, square: Square, occupied: bool)
    ensures
        !legal_move(piece, square, square, occupied),
{
}

/// A piece that is not a pawn is refused every move.
pub proof fn lemma_only_pawns_move(piece: Piece, from: Square, to: Square, occupied: bool)
    requires
        piece.piece_type != PieceType::Pawn,
    ensures
        !legal_move(piece, from, to, occupied),
{
}

/// The single step of a pawn. A move one row ahead in the pawn's own column
/// is legal if and only if the destination is empty, whether or not the pawn
/// has moved before.
pub proof fn lemma_pawn_single_step(piece: Piece, from: Square, to: Square, occupied: bool)
    requires
        piece.piece_type == PieceType::Pawn,
        on_board(from),
        on_board(to),
        to.0 - from.0 == forward(piece.piece_color),
        to.1 == from.1,
    ensures
        legal_move(piece, from, to, occupied) <==> !occupied,
{
}

/// The double step of a pawn. A move two rows ahead in the pawn's own column
/// is legal if and only if the destination is empty and the pawn has never
/// moved. Once the pawn has moved, the double step is illegal whatever
/// stands on the destination.
pub proof fn lemma_pawn_double_step(piece: Piece, from: Square, to: Square, occupied: bool)
    requires
        piece.piece_type == PieceType::Pawn,
        on_board(from),
        on_board(to),
        to.0 - from.0 == 2 * forward(piece.piece_color),
        to.1 == from.1,
    ensures
        legal_move(piece, from, to, occupied) <==> !occupied && !piece.has_moved,
        piece.has_moved ==> !legal_move(piece, from, to, occupied),
{
}

/// Diagonal steps of a pawn. A move one row ahead and one column to either
/// side is legal if and only if the destination is occupied: a pawn takes
/// diagonally and never walks diagonally onto an empty square.
pub proof fn lemma_pawn_diagonal(piece: Piece, from: Square, to: Square, occupied: bool)
    requires
        piece.piece_type == PieceType::Pawn,
        on_board(from),
        on_board(to),
        to.0 - from.0 == forward(piece.piece_color),
        to.1 - from.1 == 1 || to.1 - from.1 == -1,
    ensures
        legal_move(piece, from, to, occupied) <==> occupied,
{
}

/// The pawn rule has no cases but the three it names: a legal pawn move goes
/// one row ahead (straight onto an empty square or diagonally onto an
/// occupied one) or, for a pawn that has never moved, two rows ahead
/// straight onto an empty square.
pub proof fn lemma_pawn_reach(piece: Piece, from: Square, to: Square, occupied: bool)
    requires
        piece.piece_type == PieceType::Pawn,
        legal_move(piece, from, to, occupied),
    ensures
        to.0 - from.0 == forward(piece.piece_color) || (to.0 - from.0 == 2 * forward(
            piece.piece_color,
        ) && !piece.has_moved),
        -1 <= to.1 - from.1 <= 1,
        occupied <==> to.1 != from.1,
{
}

/// White and Black follow one rule, seen from opposite sides: a move is
/// legal for a piece exactly when the mirrored move is legal for the same
/// piece in the other colour.
pub proof fn lemma_colors_mirror(white: Piece, black: Piece, from: Square, to: Square, occupied: bool)
    requires
        white.piece_color == PieceColor::White,
        black.piece_color == PieceColor::Black,
        white.piece_type == black.piece_type,
        white.has_moved == black.has_moved,
        on_board(from),
        on_board(to),
    ensures
        legal_move(black, from, to, occupied) == legal_move(
            white,
            mirrored(from),
            mirrored(to),
            occupied,
        ),
{
}

} // verus!
