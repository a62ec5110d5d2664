//! The two inquiries that every model answers: who are you, and which
//! firmware do you run.
use vstd::prelude::*;
use crate::errors::{RequestError, TransportError};
use crate::midi_io::OutputDevice;
use crate::protocols::{be_u16, fits, fits_template, spec_be_u16, ANY};

verus! {

/// The device id that addresses every device on the connection.
pub const QUERY_DEVICE_ID_FOR_ANY: u8 = 127;

/// Whom a device inquiry is addressed to.
#[derive(Debug, Clone, Copy, PartialEq, Eq, Hash, Structural)]
pub enum DeviceIdQuery {
    /// The device with this id. The id 127 is not a device: it is how `Any`
    /// is written on the wire.
    Specific(u8),
    /// Every device.
    Any,
}

/// A device's answer to a device inquiry.
#[derive(Debug, Clone, Copy, PartialEq, Eq, Hash, Structural)]
pub struct DeviceInquiry {
    pub device_id: u8,
    pub family_code: u16,
    pub family_member_code: u16,
    pub firmware_revision: u32,
}

/// A device's answer to a version inquiry.
#[derive(Debug, Clone, Copy, PartialEq, Eq, Hash, Structural)]
pub struct VersionInquiry {
    pub bootloader_version: u32,
    pub firmware_version: u32,
    pub bootloader_size: u16,
}

/// The number written as four decimal digits, one to a byte, most
/// significant first.
pub open spec fn spec_decimal4(d0: u8, d1: u8, d2: u8, d3: u8) -> int {
    d0 * 1000 + d1 * 100 + d2 * 10 + d3
}

/// The number written as five decimal digits, one to a byte, most
/// significant first.
pub open spec fn spec_decimal5(d0: u8, d1: u8, d2: u8, d3: u8, d4: u8) -> int {
    d0 * 10000 + d1 * 1000 + d2 * 100 + d3 * 10 + d4
}

/// Reads four bytes as the decimal digits of one number.
pub fn decimal4(d0: u8, d1: u8, d2: u8, d3: u8) -> (value: u32)
    ensures
        value == spec_decimal4(d0, d1, d2, d3),
{
    d0 as u32 * 1000 + d1 as u32 * 100 + d2 as u32 * 10 + d3 as u32
}

/// Reads five bytes as the decimal digits of one number.
pub fn decimal5(d0: u8, d1: u8, d2: u8, d3: u8, d4: u8) -> (value: u32)
    ensures
        value == spec_decimal5(d0, d1, d2, d3, d4),
{
    d0 as u32 * 10000 + d1 as u32 * 1000 + d2 as u32 * 100 + d3 as u32 * 10 + d4 as u32
}

/// The shape of a device inquiry reply: the universal header, the device
/// id, the reply marker, Novation's manufacturer id, and then two bytes of
/// family code, two of family member code and four firmware digits.
pub const DEVICE_INQUIRY_REPLY: [u16; 17] = [
    240,
    126,
    ANY,
    6,
    2,
    0,
    32,
    41,
    ANY,
    ANY,
    ANY,
    ANY,
    ANY,
    ANY,
    ANY,
    ANY,
    247,
];

/// The shape of a version inquiry reply: Novation's header, then five
/// digits of bootloader version, five of firmware version and two bytes of
/// bootloader size.
pub const VERSION_INQUIRY_REPLY: [u16; 19] = [
    240,
    0,
    32,
    41,
    0,
    112,
    ANY,
    ANY,
    ANY,
    ANY,
    ANY,
    ANY,
    ANY,
    ANY,
    ANY,
    ANY,
    ANY,
    ANY,
    247,
];

/// What a buffer says as a device inquiry reply, if it is one.
pub open spec fn spec_parse_device_query(data: Seq<u8>) -> Option<DeviceInquiry> {
    if fits(data, DEVICE_INQUIRY_REPLY@) {
        Some(
            DeviceInquiry {
                device_id: data[2],
                family_code: spec_be_u16(data[8], data[9]) as u16,
                family_member_code: spec_be_u16(data[10], data[11]) as u16,
                firmware_revision: spec_decimal4(data[12], data[13], data[14], data[15]) as u32,
            },
        )
    } else {
        None
    }
}

/// What a buffer says as a version inquiry reply, if it is one.
pub open spec fn spec_parse_version_query(data: Seq<u8>) -> Option<VersionInquiry> {
    if fits(data, VERSION_INQUIRY_REPLY@) {
        Some(
            VersionInquiry {
                bootloader_version: spec_decimal5(data[6], data[7], data[8], data[9], data[10])
                    as u32,
                firmware_version: spec_decimal5(data[11], data[12], data[13], data[14], data[15])
                    as u32,
                bootloader_size: spec_be_u16(data[16], data[17]) as u16,
            },
        )
    } else {
        None
    }
}

/// The bytes of a device inquiry, or `None` where the query names the
/// reserved id as a single device.
pub open spec fn spec_device_inquiry_request(query: DeviceIdQuery) -> Option<Seq<u8>> {
    match query {
        DeviceIdQuery::Specific(device_id) => if device_id == QUERY_DEVICE_ID_FOR_ANY {
            None
        } else {
            Some(seq![240u8, 126u8, device_id, 6u8, 1u8, 247u8])
        },
        DeviceIdQuery::Any => Some(seq![240u8, 126u8, QUERY_DEVICE_ID_FOR_ANY, 6u8, 1u8, 247u8]),
    }
}

/// The bytes of a version inquiry.
pub open spec fn spec_version_inquiry_request() -> Seq<u8> {
    seq![240u8, 0u8, 32u8, 41u8, 0u8, 112u8, 247u8]
}

/// Reads a device inquiry reply. Anything that has not exactly the shape of
/// one is `None`; the digits are taken as they come.
pub fn parse_device_query(data: &[u8]) -> (reply: Option<DeviceInquiry>)
    ensures
        reply == spec_parse_device_query(data@),
{
    if fits_template(data, &DEVICE_INQUIRY_REPLY) {
        Some(
            DeviceInquiry {
                device_id: data[2],
                family_code: be_u16(data[8], data[9]),
                family_member_code: be_u16(data[10], data[11]),
                firmware_revision: decimal4(data[12], data[13], data[14], data[15]),
            },
        )
    } else {
        None
    }
}

/// Reads a version inquiry reply. Anything that has not exactly the shape
/// of one is `None`; the digits are taken as they come.
pub fn parse_version_query(data: &[u8]) -> (reply: Option<VersionInquiry>)
    ensures
        reply == spec_parse_version_query(data@),
{
    if fits_template(data, &VERSION_INQUIRY_REPLY) {
        Some(
            VersionInquiry {
                bootloader_version: decimal5(data[6], data[7], data[8], data[9], data[10]),
                firmware_version: decimal5(data[11], data[12], data[13], data[14], data[15]),
                bootloader_size: be_u16(data[16], data[17]),
            },
        )
    } else {
        None
    }
}

/// Writes a device inquiry. A query for the single device 127 is refused,
/// because 127 on the wire means every device.
pub fn device_inquiry_request(query: DeviceIdQuery) -> (bytes: Option<Vec<u8>>)
    ensures
        bytes is Some <==> spec_device_inquiry_request(query) is Some,
        bytes matches Some(b) ==> Some(b@) == spec_device_inquiry_request(query),
{
    let query_device_id = match query {
        DeviceIdQuery::Specific(device_id) => {
            if device_id == QUERY_DEVICE_ID_FOR_ANY {
                return None;
            }
            device_id
        },
        DeviceIdQuery::Any => QUERY_DEVICE_ID_FOR_ANY,
    };
    let bytes = vec![240u8, 126u8, query_device_id, 6u8, 1u8, 247u8];
    assert(bytes@ =~= spec_device_inquiry_request(query)->Some_0);
    Some(bytes)
}

/// Writes a version inquiry.
pub fn version_inquiry_request() -> (bytes: Vec<u8>)
    ensures
        bytes@ == spec_version_inquiry_request(),
{
    let bytes = vec![240u8, 0u8, 32u8, 41u8, 0u8, 112u8, 247u8];
    assert(bytes@ =~= spec_version_inquiry_request());
    bytes
}

/// What a request that was handed to the connection comes to: what the
/// connection made of it.
pub open spec fn spec_request_outcome(sent: Result<(), TransportError>) -> Result<
    (),
    RequestError,
> {
    match sent {
        Ok(()) => Ok(()),
        Err(cause) => Err(RequestError::Transport(cause)),
    }
}

/// Reports how a request went that was handed to the connection.
pub fn request_outcome(sent: Result<(), TransportError>) -> (done: Result<(), RequestError>)
    ensures
        done == spec_request_outcome(sent),
{
    match sent {
        Ok(()) => Ok(()),
        Err(cause) => Err(RequestError::Transport(cause)),
    }
}

/// Sends a device inquiry over `output`.
///
/// A query for the single device 127 fails with
/// [`RequestError::ReservedDeviceId`] before anything is sent. Any other
/// query hands the bytes of [`device_inquiry_request`] to the connection
/// once, and comes to what [`request_outcome`] makes of the connection's
/// answer.
pub fn request_device_inquiry<T: OutputDevice>(output: &mut T, query: DeviceIdQuery) -> (done:
    Result<(), RequestError>)
    ensures
        spec_device_inquiry_request(query) is None <==> done == Err::<(), RequestError>(
            RequestError::ReservedDeviceId,
        ),
        spec_device_inquiry_request(query) is Some ==> exists|sent: Result<(), TransportError>|
            done == #[trigger] spec_request_outcome(sent),
{
    match device_inquiry_request(query) {
        None => Err(RequestError::ReservedDeviceId),
        Some(bytes) => {
            let sent = output.send(bytes.as_slice());
            let done = request_outcome(sent);
            assert(done == spec_request_outcome(sent));
            done
        },
    }
}

/// Sends a version inquiry over `output`: the bytes of
/// [`version_inquiry_request`] are handed to the connection once, and the
/// request comes to what [`request_outcome`] makes of the connection's
/// answer. A version inquiry is never refused.
pub fn request_version_inquiry<T: OutputDevice>(output: &mut T) -> (done: Result<
    (),
    RequestError,
>)
    ensures
        exists|sent: Result<(), TransportError>| done == #[trigger] spec_request_outcome(sent),
{
    let bytes = version_inquiry_request();
    let sent = output.send(bytes.as_slice());
    let done = request_outcome(sent);
    assert(done == spec_request_outcome(sent));
    done
}

} // verus!
