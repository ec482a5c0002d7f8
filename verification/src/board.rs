//! The board: which piece stands on which square, and the registry that
//! holds every piece's record for the whole game.

use vstd::prelude::*;
use crate::pieces::{on_board, Piece, PieceColor, PieceRef, PieceType, Square, BOARD_SIZE};

verus! {

/// Why a board operation was refused.
#[derive(Clone, Copy, Debug, PartialEq, Eq, Structural)]
pub enum BoardError {
    /// A square that was named does not lie on the board.
    OutOfRange,
}

/// What a board is, mathematically: the occupied squares with the handle of
/// the piece on each, and the records of all pieces ever placed, indexed by
/// handle.
pub struct BoardView {
    pub squares: Map<Square, PieceRef>,
    pub pieces: Seq<Piece>,
}

impl BoardView {
    /// The piece standing on `square`, if any.
    pub open spec fn occupant(self, square: Square) -> Option<PieceRef> {
        if self.squares.dom().contains(square) {
            Some(self.squares[square])
        } else {
            None
        }
    }

    /// Whether `id` is the handle of a piece of this board.
    pub open spec fn knows(self, id: PieceRef) -> bool {
        id.0 < self.pieces.len()
    }

    /// The record of the piece `id`.
    pub open spec fn piece(self, id: PieceRef) -> Piece
        recommends
            self.knows(id),
    {
        self.pieces[id.0 as int]
    }

    /// Squares and records agree:
    /// - only squares of the board are occupied, each by a known piece that
    ///   is not captured and whose record names that very square;
    /// - every piece that is not captured stands on the square its record
    ///   names.
    pub open spec fn wf(self) -> bool {
        &&& forall|square: Square| #[trigger]
            self.squares.dom().contains(square) ==> {
                &&& on_board(square)
                &&& self.knows(self.squares[square])
                &&& self.piece(self.squares[square]).position == square
                &&& !self.piece(self.squares[square]).is_captured
            }
        &&& forall|id: PieceRef|
            self.knows(id) && !(#[trigger] self.piece(id)).is_captured ==> {
                &&& self.squares.dom().contains(self.piece(id).position)
                &&& self.squares[self.piece(id).position] == id
            }
    }

    /// The board after the piece on `from` has been moved to `to`,
    /// unconditionally: a piece standing on `to` is marked captured and
    /// leaves the squares, the moving piece's record names `to` and says
    /// that it has moved, `from` is empty and `to` holds the moving piece.
    /// No record is added or removed.
    pub open spec fn commit(self, from: Square, to: Square) -> BoardView
        recommends
            self.wf(),
            self.occupant(from) is Some,
            on_board(to),
            from != to,
    {
        let mover = self.squares[from];
        let after_capture = match self.occupant(to) {
            Some(taken) => self.pieces.update(taken.0 as int, self.piece(taken).captured()),
            None => self.pieces,
        };
        BoardView {
            squares: self.squares.remove(from).insert(to, mover),
            pieces: after_capture.update(mover.0 as int, self.piece(mover).moved_to(to)),
        }
    }

    /// The board after a fresh piece has been set on the empty square
    /// `square`: its record is appended and its handle is the next index.
    pub open spec fn place(self, piece_type: PieceType, piece_color: PieceColor, square: Square) -> BoardView
        recommends
            self.wf(),
            on_board(square),
            self.occupant(square) is None,
    {
        BoardView {
            squares: self.squares.insert(square, PieceRef(self.pieces.len() as usize)),
            pieces: self.pieces.push(
                Piece {
                    piece_type,
                    piece_color,
                    position: square,
                    has_moved: false,
                    is_captured: false,
                },
            ),
        }
    }
}

/// Committing a move keeps a board well formed.
pub proof fn lemma_commit_preserves_wf(board: BoardView, from: Square, to: Square)
    requires
        board.wf(),
        board.occupant(from) is Some,
        on_board(to),
        from != to,
    ensures
        board.commit(from, to).wf(),
{
    let after = board.commit(from, to);
    let mover = board.squares[from];
    assert(board.squares.dom().contains(from));
    assert(board.piece(mover).position == from);
    assert forall|square: Square| #[trigger] after.squares.dom().contains(square) implies {
        &&& on_board(square)
        &&& after.knows(after.squares[square])
        &&& after.piece(after.squares[square]).position == square
        &&& !after.piece(after.squares[square]).is_captured
    } by {
        if square != to {
            assert(board.squares.dom().contains(square));
            if board.squares.dom().contains(to) {
                assert(board.piece(board.squares[to]).position == to);
            }
        }
    }
    assert forall|id: PieceRef|
        after.knows(id) && !(#[trigger] after.piece(id)).is_captured implies {
        &&& after.squares.dom().contains(after.piece(id).position)
        &&& after.squares[after.piece(id).position] == id
    } by {
        if id != mover {
            assert(!board.piece(id).is_captured);
            assert(board.squares.dom().contains(board.piece(id).position));
        }
    }
}

/// What a committed move does to the piece that moves: its old square is
/// empty afterwards, the destination holds it, and its record names the
/// destination and says that it has moved. It is still the same piece, of
/// the same kind and colour, and it is not captured.
pub proof fn lemma_commit_moves_piece(board: BoardView, from: Square, to: Square)
    requires
        board.wf(),
        board.occupant(from) is Some,
        on_board(to),
        from != to,
    ensures
        board.commit(from, to).occupant(from) is None,
        board.commit(from, to).occupant(to) == board.occupant(from),
        ({
            let mover = board.occupant(from)->Some_0;
            let after = board.commit(from, to);
            &&& after.knows(mover)
            &&& after.piece(mover).position == to
            &&& after.piece(mover).has_moved
            &&& !after.piece(mover).is_captured
            &&& after.piece(mover).piece_type == board.piece(mover).piece_type
            &&& after.piece(mover).piece_color == board.piece(mover).piece_color
        }),
{
    let mover = board.squares[from];
    assert(board.squares.dom().contains(from));
    if board.squares.dom().contains(to) {
        assert(board.piece(board.squares[to]).position == to);
    }
}

/// What a committed move does to a piece that stood on the destination: it
/// is captured. Its record is kept, unchanged but for the mark, and no
/// square of the board holds the piece any more.
pub proof fn lemma_commit_captures(board: BoardView, from: Square, to: Square, square: Square)
    requires
        board.wf(),
        board.occupant(from) is Some,
        board.occupant(to) is Some,
        from != to,
    ensures
        ({
            let taken = board.occupant(to)->Some_0;
            let after = board.commit(from, to);
            &&& after.pieces.len() == board.pieces.len()
            &&& after.knows(taken)
            &&& after.piece(taken) == board.piece(taken).captured()
            &&& after.piece(taken).is_captured
            &&& after.occupant(square) != Some(taken)
        }),
{
    let taken = board.squares[to];
    assert(board.squares.dom().contains(from));
    assert(board.squares.dom().contains(to));
    assert(board.piece(board.squares[from]).position == from);
    lemma_commit_preserves_wf(board, from, to);
    lemma_captured_is_absent(board.commit(from, to), taken, square);
}

/// A captured piece stands nowhere: on a well-formed board no square is
/// occupied by a piece whose record is marked captured.
pub proof fn lemma_captured_is_absent(board: BoardView, id: PieceRef, square: Square)
    requires
        board.wf(),
        board.knows(id),
        board.piece(id).is_captured,
    ensures
        board.occupant(square) != Some(id),
{
    if board.squares.dom().contains(square) {
        assert(!board.piece(board.squares[square]).is_captured);
    }
}

/// The marks on a piece are set once and for all, and a piece keeps its
/// kind and colour: whatever move is committed, every record stays in the
/// registry, a piece that had moved has moved, and a captured piece stays
/// captured.
pub proof fn lemma_commit_is_one_way(board: BoardView, from: Square, to: Square, id: PieceRef)
    requires
        board.wf(),
        board.occupant(from) is Some,
        on_board(to),
        from != to,
        board.knows(id),
    ensures
        board.commit(from, to).pieces.len() == board.pieces.len(),
        board.commit(from, to).knows(id),
        board.piece(id).has_moved ==> board.commit(from, to).piece(id).has_moved,
        board.piece(id).is_captured ==> board.commit(from, to).piece(id).is_captured,
        board.commit(from, to).piece(id).piece_type == board.piece(id).piece_type,
        board.commit(from, to).piece(id).piece_color == board.piece(id).piece_color,
{
    assert(board.squares.dom().contains(from));
    if board.squares.dom().contains(to) {
        assert(board.piece(board.squares[to]).position == to);
    }
}

/// A committed move touches nothing but the two squares it names and the
/// pieces that stood on them.
pub proof fn lemma_commit_leaves_rest(
    board: BoardView,
    from: Square,
    to: Square,
    square: Square,
    id: PieceRef,
)
    requires
        board.wf(),
        board.occupant(from) is Some,
        on_board(to),
        from != to,
    ensures
        square != from && square != to ==> board.commit(from, to).occupant(square)
            == board.occupant(square),
        board.knows(id) && board.occupant(from) != Some(id) && board.occupant(to) != Some(id)
            ==> board.commit(from, to).piece(id) == board.piece(id),
{
    assert(board.squares.dom().contains(from));
}

/// No two pieces in play share a square: two different pieces, neither of
/// them captured, stand on different squares.
pub proof fn lemma_one_piece_per_square(board: BoardView, a: PieceRef, b: PieceRef)
    requires
        board.wf(),
        board.knows(a),
        board.knows(b),
        a != b,
        !board.piece(a).is_captured,
        !board.piece(b).is_captured,
    ensures
        board.piece(a).position != board.piece(b).position,
{
}

/// Setting a fresh piece on an empty square keeps a board well formed.
pub proof fn lemma_place_preserves_wf(
    board: BoardView,
    piece_type: PieceType,
    piece_color: PieceColor,
    square: Square,
)
    requires
        board.wf(),
        board.pieces.len() < usize::MAX,
        on_board(square),
        board.occupant(square) is None,
    ensures
        board.place(piece_type, piece_color, square).wf(),
{
    let after = board.place(piece_type, piece_color, square);
    let fresh = PieceRef(board.pieces.len() as usize);
    assert forall|at: Square| #[trigger] after.squares.dom().contains(at) implies {
        &&& on_board(at)
        &&& after.knows(after.squares[at])
        &&& after.piece(after.squares[at]).position == at
        &&& !after.piece(after.squares[at]).is_captured
    } by {
        if at != square {
            assert(board.squares.dom().contains(at));
        }
    }
    assert forall|id: PieceRef|
        after.knows(id) && !(#[trigger] after.piece(id)).is_captured implies {
        &&& after.squares.dom().contains(after.piece(id).position)
        &&& after.squares[after.piece(id).position] == id
    } by {
        if id != fresh {
            assert(!board.piece(id).is_captured);
            assert(board.squares.dom().contains(board.piece(id).position));
        }
    }
}

/// The occupancy grid and the registry of pieces.
///
/// The grid is written by setup and by [`ChessBoard::commit_move`] only, so
/// that grid and records can never disagree.
#[derive(Clone, Debug)]
pub struct ChessBoard {
    squares: [[Option<PieceRef>; 8]; 8],
    pieces: Vec<Piece>,
}

impl View for ChessBoard {
    type V = BoardView;

    closed spec fn view(&self) -> BoardView {
        BoardView {
            squares: Map::new(
                |square: Square| on_board(square) && self.squares[square.0 as int][square.1 as int] is Some,
                |square: Square| self.squares[square.0 as int][square.1 as int]->Some_0,
            ),
            pieces: self.pieces@,
        }
    }
}

/// A board with no piece on it.
pub fn create_board() -> (board: ChessBoard)
    ensures
        board.wf(),
        board@.squares == Map::<Square, PieceRef>::empty(),
        board@.pieces == Seq::<Piece>::empty(),
{
    let empty_row: [Option<PieceRef>; 8] = [None; 8];
    let board = ChessBoard { squares: [empty_row; 8], pieces: Vec::new() };
    proof {
        assert(board@.squares =~= Map::<Square, PieceRef>::empty());
    }
    board
}

impl ChessBoard {
    /// The invariant of a board: its view is well formed.
    pub open spec fn wf(&self) -> bool {
        self@.wf()
    }

    /// Sets a fresh piece on the empty square `square` and returns its
    /// handle. Setup is the only caller: once the game runs, pieces move and
    /// are captured, and none is added.
    pub(crate) fn place(
        &mut self,
        piece_type: PieceType,
        piece_color: PieceColor,
        square: Square,
    ) -> (id: PieceRef)
        requires
            old(self).wf(),
            on_board(square),
            old(self)@.occupant(square) is None,
            old(self)@.pieces.len() < usize::MAX,
        ensures
            final(self).wf(),
            final(self)@ == old(self)@.place(piece_type, piece_color, square),
            id == PieceRef(old(self)@.pieces.len() as usize),
    {
        let id = PieceRef(self.pieces.len());
        self.pieces.push(Piece::new(piece_type, piece_color, square));
        self.squares[square.0][square.1] = Some(id);
        proof {
            lemma_place_preserves_wf(old(self)@, piece_type, piece_color, square);
            assert(self@.squares =~= old(self)@.place(piece_type, piece_color, square).squares);
        }
        id
    }

    /// The piece recorded on `square`: a lookup that changes nothing.
    /// Fails exactly when `square` is not on the board.
    pub fn occupant_at(&self, square: Square) -> (result: Result<Option<PieceRef>, BoardError>)
        ensures
            on_board(square) ==> result == Ok::<Option<PieceRef>, BoardError>(self@.occupant(square)),
            !on_board(square) ==> result == Err::<Option<PieceRef>, BoardError>(BoardError::OutOfRange),
    {
        if square.0 >= BOARD_SIZE || square.1 >= BOARD_SIZE {
            return Err(BoardError::OutOfRange);
        }
        Ok(self.squares[square.0][square.1])
    }

    /// Number of pieces ever placed on this board, captured ones included.
    pub fn piece_count(&self) -> (count: usize)
        ensures
            count == self@.pieces.len(),
    {
        self.pieces.len()
    }

    /// The record of the piece `id`, or `None` if this board issued no such
    /// handle. Records of captured pieces stay retrievable.
    pub fn piece(&self, id: PieceRef) -> (record: Option<Piece>)
        ensures
            self@.knows(id) ==> record == Some(self@.piece(id)),
            !self@.knows(id) ==> record is None,
    {
        if id.0 < self.pieces.len() {
            Some(self.pieces[id.0])
        } else {
            None
        }
    }

    /// Applies the move of the piece on `from` to `to` without judging it:
    /// legality is for the caller to settle beforehand.
    ///
    /// Fails, and changes nothing, exactly when one of the squares is not on
    /// the board. Otherwise `from` must hold a piece and `to` must be another
    /// square, and the board becomes `commit(from, to)` of what it was: a
    /// piece on `to` is captured, and the moving piece stands on `to`.
    pub fn commit_move(&mut self, from: Square, to: Square) -> (result: Result<(), BoardError>)
        requires
            old(self).wf(),
            on_board(from) && on_board(to) ==> from != to && old(self)@.occupant(from) is Some,
        ensures
            final(self).wf(),
            !(on_board(from) && on_board(to)) ==> {
                &&& result == Err::<(), BoardError>(BoardError::OutOfRange)
                &&& final(self)@ == old(self)@
            },
            on_board(from) && on_board(to) ==> {
                &&& result is Ok
                &&& final(self)@ == old(self)@.commit(from, to)
                &&& final(self)@.occupant(from) is None
                &&& final(self)@.occupant(to) == old(self)@.occupant(from)
                &&& final(self)@.piece(old(self)@.occupant(from)->Some_0).position == to
                &&& final(self)@.piece(old(self)@.occupant(from)->Some_0).has_moved
            },
            on_board(from) && on_board(to) ==> (old(self)@.occupant(to) matches Some(taken) ==> {
                &&& final(self)@.knows(taken)
                &&& final(self)@.piece(taken).is_captured
                &&& forall|square: Square| final(self)@.occupant(square) != Some(taken)
            }),
    {
        if from.0 >= BOARD_SIZE || from.1 >= BOARD_SIZE || to.0 >= BOARD_SIZE || to.1 >= BOARD_SIZE {
            return Err(BoardError::OutOfRange);
        }
        let mover = self.squares[from.0][from.1].unwrap();
        if let Some(taken) = self.squares[to.0][to.1] {
            self.pieces[taken.0].is_captured = true;
        }
        self.pieces[mover.0].position = to;
        self.pieces[mover.0].has_moved = true;
        self.squares[from.0][from.1] = None;
        self.squares[to.0][to.1] = Some(mover);
        proof {
            lemma_commit_preserves_wf(old(self)@, from, to);
            lemma_commit_moves_piece(old(self)@, from, to);
            assert(self@.squares =~= old(self)@.commit(from, to).squares);
            assert(self@.pieces =~= old(self)@.commit(from, to).pieces);
            if old(self)@.occupant(to) is Some {
                assert forall|square: Square|
                    self@.occupant(square) != old(self)@.occupant(to) by {
                    lemma_commit_captures(old(self)@, from, to, square);
                }
                lemma_commit_captures(old(self)@, from, to, to);
            }
        }
        Ok(())
    }
}

} // verus!
