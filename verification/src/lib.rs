//! Cardinal-axis conventions for rotating three-dimensional vectors.
//!
//! A rotation about a coordinate axis is named by a one-letter token.  This
//! crate decides which axis a token names and which two coordinates the
//! rotation turns, and in which sense; and it carries the rotation out on
//! three coordinates of any type, given the turn of the plane as a function.

pub mod axis;
pub mod error;
pub mod frame;
pub mod rotation;

pub use axis::Axis;
pub use error::RotateError;
pub use rotation::{rotate_with, turn_about};
