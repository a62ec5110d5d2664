//! The grammar that the Launchpad S and the Launchpad Mini share.
//!
//! Both number the buttons of the grid by rows of sixteen: the note of a
//! grid button is its row times sixteen plus its column.
pub mod geometry;
pub mod input;

pub use crate::protocols::Button80 as Button;
pub use input::{GenericInput, Input, Message};
