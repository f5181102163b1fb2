//! Rovers on a bounded rectangular plateau.
//!
//! A [`Plateau`] owns its inclusive bounds and the rovers registered on it.
//! Every rover keeps a fixed heading and advances one cell at a time; the
//! plateau accepts a step only if the target cell lies within bounds and is
//! free.

pub mod fleet;
pub mod geometry;
pub mod laws;
pub mod plateau;

pub use geometry::{Direction, Point, Rover};
pub use plateau::{Plateau, PlateauError};
