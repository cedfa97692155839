//! Rules of chess: board state, attack and legality evaluation, move
//! application, outcome detection and position notation.

pub mod piece;
pub mod attack;
pub mod moves;
pub mod position;
pub mod board;
pub mod notation;
pub mod engine;
pub mod theorems;
