//! Conway's Game of Life on a fixed, non-wrapping grid, with per-cell dirty
//! tracking so that a renderer redraws only the cells whose state changed.
pub mod cell;
pub mod game;
pub mod laws;
pub mod layout;
pub mod driver;
