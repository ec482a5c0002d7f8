//! What the keyboard and the pointer ask for, decided on plain values. The
//! front end reads the devices, asks here, and carries the answer out.

use vstd::prelude::*;
use crate::pieces::{Square, BOARD_SIZE};

verus! {

/// The keys the game listens to: for each, whether it has just been pressed.
#[derive(Clone, Copy, Debug, PartialEq, Eq)]
pub struct KeysPressed {
    pub r: bool,
    pub equal: bool,
    pub shift_left: bool,
    pub shift_right: bool,
    pub numpad_add: bool,
    pub minus: bool,
    pub numpad_subtract: bool,
    pub escape: bool,
}

/// What is to happen to the size of the board on screen.
#[derive(Clone, Copy, Debug, PartialEq, Eq, Structural)]
pub enum Zoom {
    /// Back to full size and to the home position.
    Reset,
    /// One step larger.
    Grow,
    /// One step smaller.
    Shrink,
    /// As it is.
    Keep,
}

/// What a set of key presses asks for.
#[derive(Clone, Copy, Debug, PartialEq, Eq)]
pub struct KeyCommand {
    pub zoom: Zoom,
    /// Whether the program is to end, once `zoom` has been carried out.
    pub quit: bool,
}

/// The zoom that `keys` ask for. `R` resets; failing that, `=` pressed
/// together with a shift key, or the keypad's `+`, grows the board; failing
/// that, `-` on either pad shrinks it.
pub open spec fn zoom_for(keys: KeysPressed) -> Zoom {
    if keys.r {
        Zoom::Reset
    } else if (keys.equal && (keys.shift_left || keys.shift_right)) || keys.numpad_add {
        Zoom::Grow
    } else if keys.minus || keys.numpad_subtract {
        Zoom::Shrink
    } else {
        Zoom::Keep
    }
}

/// Decides what the keys that were just pressed ask for.
pub fn keyboard_input(keys: &KeysPressed) -> (command: KeyCommand)
    ensures
        command.zoom == zoom_for(*keys),
        command.quit == keys.escape,
{
    let zoom = if keys.r {
        Zoom::Reset
    } else if (keys.equal && (keys.shift_left || keys.shift_right)) || keys.numpad_add {
        Zoom::Grow
    } else if keys.minus || keys.numpad_subtract {
        Zoom::Shrink
    } else {
        Zoom::Keep
    };
    KeyCommand { zoom, quit: keys.escape }
}

/// The square shown in column `column`, counted from the left, and in row
/// `row_from_top`, counted from the top of the board as it is drawn: the
/// screen shows row 0 at the bottom. `None` if the cell is beside the board.
pub fn pointer_tile(column: usize, row_from_top: usize) -> (tile: Option<Square>)
    ensures
        column < BOARD_SIZE && row_from_top < BOARD_SIZE ==> tile == Some(
            ((BOARD_SIZE - 1 - row_from_top) as usize, column),
        ),
        !(column < BOARD_SIZE && row_from_top < BOARD_SIZE) ==> tile is None,
{
    if column < BOARD_SIZE && row_from_top < BOARD_SIZE {
        Some((BOARD_SIZE - 1 - row_from_top, column))
    } else {
        None
    }
}

/// Whether the tile of `square` is drawn in the light colour. The corner
/// square `(0, 0)` is dark, and neighbours in a row or a column differ.
pub fn tile_is_light(square: Square) -> (light: bool)
    ensures
        light == ((square.0 + square.1) % 2 == 1),
{
    (square.0 % 2 == 0) != (square.1 % 2 == 0)
}

} // verus!
