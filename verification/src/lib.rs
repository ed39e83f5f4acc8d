//! Conway's Game of Life on a fixed-size rectangular grid.
//!
//! The engine owns two same-shaped buffers of binary cells and advances one
//! generation at a time: every cell's next state is computed from the previous
//! generation only, so the update is atomic with respect to reads of the prior
//! generation. Edges are hard boundaries: there is no wraparound.

pub mod cell;
pub mod game;
pub mod grid;
pub mod loader;
pub mod patterns;
pub mod render;
