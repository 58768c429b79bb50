//! Solver for the pursuit game Hare and Hounds: three hounds try to pen in
//! a hare on an eleven-cell board before it slips past them.

pub mod pieces;
pub mod graph;
pub mod board_state;
pub mod solver;
