//! A deterministic Conway's Game of Life engine on a fixed-size toroidal
//! grid: binary cell states, wraparound neighbor counting, the standard
//! generation-transition rule, and a plain-text rendering of the grid.

pub mod cell;
pub mod grid;
pub mod universe;

pub use cell::Cell;
pub use grid::GridView;
pub use universe::Universe;
pub use universe::UniverseError;
