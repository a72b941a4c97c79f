//! Conway's Game of Life on a fixed rectangular grid.
//!
//! The grid's cells are 0 (dead) or 1 (alive). One step replaces every cell
//! by what the rule of the game makes of it and of its neighbours. Positions
//! in the first row or the first column are never counted as neighbours; see
//! [`grid::counts`].

pub mod board;
pub mod grid;
pub mod lemmas;
pub mod render;
pub mod seed;
pub mod step;

pub use board::Board;
pub use grid::Frame;
pub use step::update;
pub use seed::{gen_board, try_gen_board, DimensionError};
pub use render::render;
