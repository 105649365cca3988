//! A minimal engine for discrete cellular automata on a fixed-size,
//! wrap-around (toroidal) two-dimensional grid.
//!
//! The [`Grid`] owns bounded cell storage and the eight wrap-around
//! neighbour-coordinate functions; the [`Universe`] advances one
//! generation at a time by evaluating a pluggable, pure transition rule
//! for every cell against the frozen live grid, writing the results into
//! a private shadow grid, and then publishing the shadow grid as the new
//! live state.

pub mod cell;
pub mod grid;
pub mod universe;

pub use cell::cs8_into_u8;
pub use cell::CellState;
pub use grid::Grid;
pub use grid::GridError;
pub use universe::Universe;
