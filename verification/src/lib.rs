//! Core logic of a 3x3 tic-tac-toe game: the grid outcome evaluator and the
//! board state with its claim, turn and theme rules.

pub mod board;
pub mod outcome;
