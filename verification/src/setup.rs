//! The starting position: sixteen pieces a side on their home squares.

use vstd::prelude::*;
use crate::board::{BoardView, ChessBoard};
use crate::pieces::{on_board, Piece, PieceColor, PieceRef, PieceType, Square, BOARD_SIZE};

verus! {

/// Number of pieces on the board at the start of a game.
pub const PIECE_COUNT: usize = 32;

/// The four rows on which pieces start, in the order in which setup fills
/// them: White's back rank, White's pawns, Black's pawns, Black's back rank.
pub open spec fn home_row(rank: int) -> usize {
    if rank == 0 {
        0
    } else if rank == 1 {
        1
    } else if rank == 2 {
        6
    } else {
        7
    }
}

/// The kind of piece that starts in column `col` of a back rank.
pub open spec fn back_rank(col: int) -> PieceType {
    if col == 0 || col == 7 {
        PieceType::Rook
    } else if col == 1 || col == 6 {
        PieceType::Knight
    } else if col == 2 || col == 5 {
        PieceType::Bishop
    } else if col == 3 {
        PieceType::Queen
    } else {
        PieceType::King
    }
}

/// The record with which the `index`-th piece starts. Pieces are numbered
/// row by row over the home rows and, within a row, by column.
pub open spec fn starting_piece(index: int) -> Piece {
    let rank = index / 8;
    let col = index % 8;
    Piece {
        piece_type: if rank == 1 || rank == 2 {
            PieceType::Pawn
        } else {
            back_rank(col)
        },
        piece_color: if rank < 2 {
            PieceColor::White
        } else {
            PieceColor::Black
        },
        position: (home_row(rank), col as usize),
        has_moved: false,
        is_captured: false,
    }
}

/// The number of the piece that starts on `square`, a square of a home row.
pub open spec fn starting_index(square: Square) -> int {
    if square.0 < 2 {
        square.0 * 8 + square.1
    } else {
        (square.0 - 4) * 8 + square.1
    }
}

/// The board once the first `count` pieces have been set up.
pub open spec fn position_after(count: int) -> BoardView {
    BoardView {
        squares: Map::new(
            |square: Square|
                on_board(square) && (square.0 < 2 || square.0 >= 6) && starting_index(square)
                    < count,
            |square: Square| PieceRef(starting_index(square) as usize),
        ),
        pieces: Seq::new(count as nat, |index: int| starting_piece(index)),
    }
}

/// The board at the start of a game.
pub open spec fn starting_position() -> BoardView {
    position_after(PIECE_COUNT as int)
}

/// The starting position is a well-formed board of thirty-two pieces.
pub proof fn lemma_starting_position_wf()
    ensures
        starting_position().wf(),
        starting_position().pieces.len() == PIECE_COUNT,
{
    let start = starting_position();
    assert forall|square: Square| #[trigger] start.squares.dom().contains(square) implies {
        &&& on_board(square)
        &&& start.knows(start.squares[square])
        &&& start.piece(start.squares[square]).position == square
        &&& !start.piece(start.squares[square]).is_captured
    } by {
        let index = starting_index(square);
        assert(0 <= index < 32);
        assert(start.pieces[index] == starting_piece(index));
    }
    assert forall|id: PieceRef|
        start.knows(id) && !(#[trigger] start.piece(id)).is_captured implies {
        &&& start.squares.dom().contains(start.piece(id).position)
        &&& start.squares[start.piece(id).position] == id
    } by {
        assert(start.piece(id) == starting_piece(id.0 as int));
    }
}

/// The starting position, square by square. The four middle rows are
/// empty. Rows 0 and 1 hold White's pieces and rows 6 and 7 Black's: pawns
/// on rows 1 and 6, and on each back rank rook, knight, bishop, queen,
/// king, bishop, knight, rook from column 0 to column 7. Every piece is
/// recorded on its square, unmoved and not captured.
pub proof fn lemma_starting_squares(square: Square)
    requires
        on_board(square),
    ensures
        2 <= square.0 < 6 ==> starting_position().occupant(square) is None,
        square.0 < 2 || square.0 >= 6 ==> {
            &&& starting_position().occupant(square) matches Some(id)
            &&& starting_position().knows(id)
            &&& starting_position().piece(id) == (Piece {
                piece_type: if square.0 == 1 || square.0 == 6 {
                    PieceType::Pawn
                } else {
                    back_rank(square.1 as int)
                },
                piece_color: if square.0 < 2 {
                    PieceColor::White
                } else {
                    PieceColor::Black
                },
                position: square,
                has_moved: false,
                is_captured: false,
            })
        },
{
    if square.0 < 2 || square.0 >= 6 {
        let index = starting_index(square);
        assert(0 <= index < 32);
        assert(starting_position().squares.dom().contains(square));
        assert(starting_position().pieces[index] == starting_piece(index));
    }
}

/// Sixteen pieces a side: the first sixteen handles are White's pieces and
/// the other sixteen are Black's.
pub proof fn lemma_sixteen_a_side(id: PieceRef)
    requires
        starting_position().knows(id),
    ensures
        id.0 < 16 ==> starting_position().piece(id).piece_color == PieceColor::White,
        id.0 >= 16 ==> starting_position().piece(id).piece_color == PieceColor::Black,
{
}

fn back_rank_piece(col: usize) -> (piece_type: PieceType)
    requires
        col < BOARD_SIZE,
    ensures
        piece_type == back_rank(col as int),
{
    if col == 0 || col == 7 {
        PieceType::Rook
    } else if col == 1 || col == 6 {
        PieceType::Knight
    } else if col == 2 || col == 5 {
        PieceType::Bishop
    } else if col == 3 {
        PieceType::Queen
    } else {
        PieceType::King
    }
}

/// Sets up the `rank`-th home row, column by column.
fn fill_row(board: &mut ChessBoard, rank: usize)
    requires
        rank < 4,
        old(board).wf(),
        old(board)@ == position_after(rank * 8),
    ensures
        final(board).wf(),
        final(board)@ == position_after(rank * 8 + 8),
{
    let row: usize = if rank == 0 {
        0
    } else if rank == 1 {
        1
    } else if rank == 2 {
        6
    } else {
        7
    };
    let piece_color = if rank < 2 {
        PieceColor::White
    } else {
        PieceColor::Black
    };
    let mut col: usize = 0;
    while col < BOARD_SIZE
        invariant
            rank < 4,
            row == home_row(rank as int),
            piece_color == starting_piece(rank * 8).piece_color,
            col <= BOARD_SIZE,
            board.wf(),
            board@ == position_after(rank * 8 + col),
        decreases BOARD_SIZE - col,
    {
        let piece_type = if rank == 1 || rank == 2 {
            PieceType::Pawn
        } else {
            back_rank_piece(col)
        };
        let ghost before = board@;
        board.place(piece_type, piece_color, (row, col));
        proof {
            let index = rank * 8 + col;
            let after = before.place(piece_type, piece_color, (row, col));
            assert(after.pieces =~= position_after(index + 1).pieces);
            assert(after.squares =~= position_after(index + 1).squares);
        }
        col += 1;
    }
}

/// Sets up the starting position on a board that holds no piece yet.
pub fn create_pieces(board: &mut ChessBoard)
    requires
        old(board).wf(),
        old(board)@.pieces.len() == 0,
    ensures
        final(board).wf(),
        final(board)@ == starting_position(),
{
    proof {
        assert(board@.squares =~= position_after(0).squares);
        assert(board@.pieces =~= position_after(0).pieces);
    }
    fill_row(board, 0);
    fill_row(board, 1);
    fill_row(board, 2);
    fill_row(board, 3);
}

} // verus!
