//! Conway's Game of Life on a fixed-size toroidal grid.
//!
//! The simulation engine owns the grid, the buffer used for generation
//! advance, the paused flag and the timing parameters, and exposes the
//! mutators and queries that a presentation layer drives.

pub mod game;
pub mod life;
mod rng;
