//! Conway's Game of Life on a bounded grid that does not wrap around.
//!
//! [`grid::GameOfLife`] is the grid. Its state, as contracts see it, is a
//! [`board::Board`]: the dimensions and the set of live positions. The rule
//! and the neighbourhood live in [`rule`], the decisions of an interactive
//! session in [`controller`], and the patterns a session starts with in
//! [`patterns`].

pub mod board;
pub mod controller;
pub mod grid;
pub mod patterns;
pub mod rule;
