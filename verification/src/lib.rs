//! Conway's Game of Life on a toroidal grid, rendered as text in which one
//! Unicode quadrant-block glyph shows a 2x2 tile of cells.
//!
//! The crate holds the grid model and its addressing scheme, the toroidal
//! neighbor arithmetic, the generation rule, and the transform from a board to
//! the frame text that overwrites the previous frame in place. Reading the
//! terminal size, drawing random cells, and the timed redraw loop live with
//! the caller; the board logic here is pure and its contracts say exactly
//! what each function returns.

pub mod board;
pub mod neighbors;
pub mod render;
pub mod scheduler;
pub mod step;
