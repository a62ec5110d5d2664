//! The Launchpad MK2.
//!
//! The MK2 numbers the buttons of the grid in decimal: the tens give the row,
//! counted from the bottom and starting at one, and the units the column,
//! starting at one.
pub mod geometry;
pub mod input;

pub use crate::protocols::Button80 as Button;
pub use input::{Input, Message};
