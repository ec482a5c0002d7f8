//! Play: what a click on the board does to the selection and to the board.

use vstd::prelude::*;
use crate::board::{BoardView, ChessBoard};
use crate::pieces::{PieceRef, Square};
use crate::rules::{is_valid_move, legal_move};

verus! {

/// What the player has selected, and whose turn it is.
#[derive(Clone, Copy, Debug, PartialEq, Eq)]
pub struct GameState {
    /// The piece picked up by the last click, with the square it was on.
    pub selected_piece: Option<(PieceRef, Square)>,
    /// `true` while it is White's turn. Moves are not held to it: the flag
    /// is kept for the front end and no move changes it.
    pub turn: bool,
}

impl GameState {
    /// The state at the start of a game: nothing selected, White to move.
    pub fn new() -> (state: GameState)
        ensures
            state.selected_piece is None,
            state.turn,
    {
        GameState { selected_piece: None, turn: true }
    }
}

/// Whether the selected piece may be moved to `to` on `board`: the selection
/// names the piece that stands on its square, and the move is legal for that
/// piece with the occupancy `to` has on this board.
pub open spec fn move_accepted(board: BoardView, selected: (PieceRef, Square), to: Square) -> bool {
    &&& board.occupant(selected.1) == Some(selected.0)
    &&& legal_move(board.piece(selected.0), selected.1, to, board.occupant(to) is Some)
}

/// Tries to move the selected piece to `new_pos`: the move is judged and,
/// if it is accepted, committed. A move that is not accepted leaves the
/// board as it was. Returns whether the piece was moved.
pub fn process_piece_movement(
    board: &mut ChessBoard,
    selected_piece: (PieceRef, Square),
    new_pos: Square,
) -> (moved: bool)
    requires
        old(board).wf(),
    ensures
        final(board).wf(),
        moved == move_accepted(old(board)@, selected_piece, new_pos),
        moved ==> final(board)@ == old(board)@.commit(selected_piece.1, new_pos),
        !moved ==> final(board)@ == old(board)@,
{
    let (selected, old_pos) = selected_piece;
    let standing = match board.occupant_at(old_pos) {
        Ok(Some(id)) => id,
        _ => { return false; },
    };
    if standing.0 != selected.0 {
        return false;
    }
    let destination = match board.occupant_at(new_pos) {
        Ok(occupant) => occupant,
        Err(_) => { return false; },
    };
    let piece = match board.piece(selected) {
        Some(piece) => piece,
        None => { return false; },
    };
    if !is_valid_move(&piece, old_pos, new_pos, &destination) {
        return false;
    }
    match board.commit_move(old_pos, new_pos) {
        Ok(()) => true,
        Err(_) => false,
    }
}

/// The selection after a click, where `moved` says whether the click moved
/// a piece, on a board that was `board` before the click.
///
/// A click beside the board drops the selection. With a piece selected, a
/// click on a square ends the selection, whether or not the piece could go
/// there. With nothing selected, a click on an occupied square selects the
/// piece on it, and a click on an empty square selects nothing.
pub open spec fn selection_after(
    board: BoardView,
    selected: Option<(PieceRef, Square)>,
    click: Option<Square>,
) -> Option<(PieceRef, Square)> {
    match (click, selected) {
        (Some(tile), None) => match board.occupant(tile) {
            Some(id) => Some((id, tile)),
            None => None,
        },
        _ => None,
    }
}

/// Handles one click: `click` is the square under the pointer, or `None`
/// when the pointer is beside the board.
///
/// With a piece selected, a click on a square tries to move the piece there
/// and ends the selection. With nothing selected it selects the piece on
/// the square, if there is one. Returns whether a piece was moved; the turn
/// flag is left alone.
pub fn mouse_input(board: &mut ChessBoard, game_state: &mut GameState, click: Option<Square>) -> (moved: bool)
    requires
        old(board).wf(),
    ensures
        final(board).wf(),
        moved == (click is Some && old(game_state).selected_piece is Some && move_accepted(
            old(board)@,
            old(game_state).selected_piece->Some_0,
            click->Some_0,
        )),
        moved ==> final(board)@ == old(board)@.commit(
            old(game_state).selected_piece->Some_0.1,
            click->Some_0,
        ),
        !moved ==> final(board)@ == old(board)@,
        final(game_state).selected_piece == selection_after(
            old(board)@,
            old(game_state).selected_piece,
            click,
        ),
        final(game_state).turn == old(game_state).turn,
{
    let tile = match click {
        Some(tile) => tile,
        None => {
            game_state.selected_piece = None;
            return false;
        },
    };
    match game_state.selected_piece {
        Some(selected) => {
            let moved = process_piece_movement(board, selected, tile);
            game_state.selected_piece = None;
            moved
        },
        None => {
            match board.occupant_at(tile) {
                Ok(Some(id)) => {
                    game_state.selected_piece = Some((id, tile));
                },
                _ => {},
            }
            false
        },
    }
}

} // verus!
