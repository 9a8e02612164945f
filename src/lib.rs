//! Navigation and mode core of a two-dimensional, stack-oriented esoteric
//! language: a cursor that travels over a toroidal grid of byte cells, and the
//! conversions between grid cells and stack cells.
pub mod position;
pub mod cursor;
pub mod cell;

pub use position::Position;
pub use cell::{GridCell, StackCell};
pub use cursor::{Cursor, Direction, Mode};
