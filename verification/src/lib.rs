//! The rules core of a small chess board: the pieces, the board that records
//! where each of them stands, the decision whether a move may be made, and
//! what a click or a key press asks for.
//!
//! Everything here is plain data and pure decisions. Drawing the board and
//! reading the devices belong to whatever front end drives this crate.

pub mod board;
pub mod controls;
pub mod game;
pub mod pieces;
pub mod rules;
pub mod setup;
