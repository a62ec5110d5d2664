//! The error values of the crate.
use vstd::prelude::*;
use vstd::slice::slice_to_vec;

verus! {

/// Why a buffer of inbound bytes was rejected.
#[derive(Debug, Clone, Copy, PartialEq, Eq, Hash, Structural)]
pub enum DecodeErrorKind {
    /// A note-on or controller-change for a button carried a velocity that is
    /// neither 127 (pressed) nor 0 (released).
    UnexpectedVelocity,
    /// A short message whose status byte or number the model does not send.
    UnexpectedMessage,
    /// A buffer that is none of the system-exclusive replies the model sends.
    UnexpectedSysexMessage,
}

/// A buffer of inbound bytes that is not a message of the model.
///
/// Decoding is all or nothing: the whole buffer is handed back in `data`.
#[derive(Debug, Clone, PartialEq, Eq, Hash)]
pub struct DecodeError {
    pub kind: DecodeErrorKind,
    pub data: Vec<u8>,
}

/// How a decoder's answer stands to what the buffer means: the same
/// message, or the same reason for rejecting it together with the whole
/// buffer.
pub open spec fn decodes_to<M>(
    decoded: Result<M, DecodeError>,
    data: Seq<u8>,
    meaning: Result<M, DecodeErrorKind>,
) -> bool {
    match decoded {
        Ok(message) => meaning == Ok::<M, DecodeErrorKind>(message),
        Err(error) => meaning == Err::<M, DecodeErrorKind>(error.kind) && error.data@ == data,
    }
}

impl DecodeError {
    /// The rejection of `data` for the reason `kind`.
    pub fn new(kind: DecodeErrorKind, data: &[u8]) -> (error: DecodeError)
        ensures
            error.kind == kind,
            error.data@ == data@,
    {
        DecodeError { kind, data: slice_to_vec(data) }
    }
}

/// A coordinate that names no cell of the canvas.
#[derive(Debug, Clone, Copy, PartialEq, Eq, Hash, Structural)]
pub struct InvalidCoordinate {
    pub x: u32,
    pub y: u32,
}

/// The connection failed to deliver a message.
#[derive(Debug, Clone, PartialEq, Eq, Hash)]
pub struct TransportError {
    pub reason: String,
}

/// A flush that the connection cut short.
///
/// The commands before the failing one reached the device and the canvas
/// remembers them; the failing command and those after it, `unsent` in all,
/// did not.
#[derive(Debug, Clone, PartialEq, Eq, Hash)]
pub struct FlushError {
    pub unsent: usize,
    pub cause: TransportError,
}

/// Why a request was not delivered.
#[derive(Debug, Clone, PartialEq, Eq, Hash)]
pub enum RequestError {
    /// The request named device id 127, which addresses every device and
    /// cannot stand for a single one. Nothing was sent.
    ReservedDeviceId,
    /// The connection failed.
    Transport(TransportError),
}

} // verus!
