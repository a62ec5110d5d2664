//! Drives Novation Launchpad controllers over MIDI.
//!
//! The crate has two halves. The protocol codec turns the raw MIDI bytes a
//! controller sends into typed messages, and typed requests into the bytes a
//! controller understands. The canvas keeps a grid of colors beside the grid
//! that the device is known to show, and brings the two together: button by
//! button where few cells changed, in one sweep over all of them where many
//! did.
//!
//! Nothing in this crate opens a MIDI connection. A connection is anything
//! that implements [`OutputDevice`]; inbound buffers are handed to the
//! decoders as plain byte slices.
use vstd::prelude::*;

pub mod canvas;
pub mod errors;
pub mod generic;
pub mod launchpad_mini;
pub mod launchpad_mk2;
pub mod midi_io;
pub mod protocols;

pub use launchpad_mini as mini;
pub use launchpad_mk2 as mk2;

pub use canvas::CanvasMessage;
pub use errors::{
    DecodeError, DecodeErrorKind, FlushError, InvalidCoordinate, RequestError, TransportError,
};
pub use midi_io::OutputDevice;

verus! {

/// The name under which a session registers with the MIDI system.
pub const APPLICATION_NAME: &'static str = "Launchy";

} // verus!
