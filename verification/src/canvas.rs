//! What all canvases share.
use vstd::prelude::*;

verus! {

/// A button event at a position of a canvas.
#[derive(Debug, Clone, Copy, PartialEq, Eq, Hash, Structural)]
pub enum CanvasMessage {
    Press { x: u32, y: u32 },
    Release { x: u32, y: u32 },
}

} // verus!
