//! The boundary to the MIDI connection.
use vstd::prelude::*;
use crate::errors::TransportError;

verus! {

/// An open connection to a device that takes one MIDI message at a time.
///
/// The crate never opens, enumerates or closes connections; it only hands
/// finished messages to `send`. An implementation reports a failure and
/// leaves retrying to its caller.
pub trait OutputDevice {
    /// Delivers one complete MIDI message.
    fn send(&mut self, bytes: &[u8]) -> Result<(), TransportError>;
}

} // verus!
