//! Animated pipes on a character grid: the walk that each pipe takes, the
//! glyph that each cell gets, and the colours that pipes are drawn in.

pub mod color;
pub mod direction;
pub mod field;
pub mod glyph;
pub mod pipe;
mod random;

pub use color::Color;
pub use direction::Direction;
pub use field::{Cell, FieldError, PipeField};
pub use pipe::{Pipe, Position};
