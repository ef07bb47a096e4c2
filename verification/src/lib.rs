//! A falling-block puzzle engine: the playfield, the seven pieces, the rules
//! for moving, rotating, locking and clearing rows, and the score.
//!
//! Every function is verified against a mathematical model of the state it
//! works on. The library says which sounds to play and which tiles to draw;
//! windows, sound, input polling and the drawing itself are left to the
//! caller.

pub mod game;
pub mod rand;
pub mod stage;
pub mod tetris;
pub mod utils;
