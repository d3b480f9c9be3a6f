//! Conway's Game of Life on a toroidal grid.
//!
//! The engine owns a flat row-major buffer of two-valued cells, advances it
//! one generation at a time under the standard B3/S23 rule with wrap-around
//! neighbor counting, and exposes the state for rendering and editing.

pub mod cell;
pub mod rules;
pub mod universe;

pub use cell::Cell;
pub use universe::GridError;
pub use universe::Universe;
