//! Terminal text styling with ANSI escape sequences.
//!
//! Text is decorated by chaining the methods of [`Color`] on a string or on
//! an already styled value; each call gives a new [`ColoredString`] that
//! keeps the raw text and the accumulated [`Code`]. Rendering turns the code
//! into escape sequences around the text, or leaves the text bare when the
//! [`Switch`] is off.

pub mod ansi;
pub mod code;
pub mod color;
pub mod colored;
pub mod laws;
pub mod palette;
pub mod switch;

pub use crate::ansi::AsAnsi;
pub use crate::code::Code;
pub use crate::color::Color;
pub use crate::colored::ColoredString;
pub use crate::switch::{disable_color, enable_color, Switch};
