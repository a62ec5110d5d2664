//! The system-exclusive replies that the models send.
use vstd::prelude::*;
use crate::protocols::query::{
    parse_device_query, parse_version_query, spec_parse_device_query, spec_parse_version_query,
    DeviceInquiry, VersionInquiry,
};
use crate::protocols::{fits, fits_template};

verus! {

/// The notice that a scrolling text has ended: all of its bytes are fixed.
pub const TEXT_ENDED: [u16; 8] = [240, 0, 32, 41, 2, 24, 21, 247];

/// What a system-exclusive message of a device says.
#[derive(Debug, Clone, Copy, PartialEq, Eq, Hash, Structural)]
pub enum SysexReply {
    /// A text that was sent for scrolling has run through, or starts over.
    TextEndedOrLooped,
    /// The answer to a device inquiry.
    DeviceInquiry(DeviceInquiry),
    /// The answer to a version inquiry.
    VersionInquiry(VersionInquiry),
}

/// What a buffer says as a system-exclusive message: it fits exactly one of
/// the known templates, or it says nothing.
pub open spec fn spec_sysex_reply(data: Seq<u8>) -> Option<SysexReply> {
    if fits(data, TEXT_ENDED@) {
        Some(SysexReply::TextEndedOrLooped)
    } else if let Some(reply) = spec_parse_device_query(data) {
        Some(SysexReply::DeviceInquiry(reply))
    } else if let Some(reply) = spec_parse_version_query(data) {
        Some(SysexReply::VersionInquiry(reply))
    } else {
        None
    }
}

/// Reads a buffer as a system-exclusive message. The templates are tried
/// in turn; a buffer that fits none of them byte for byte is `None`, and
/// nothing is read out of it.
pub fn sysex_reply(data: &[u8]) -> (reply: Option<SysexReply>)
    ensures
        reply == spec_sysex_reply(data@),
{
    if fits_template(data, &TEXT_ENDED) {
        return Some(SysexReply::TextEndedOrLooped);
    }
    if let Some(reply) = parse_device_query(data) {
        return Some(SysexReply::DeviceInquiry(reply));
    }
    if let Some(reply) = parse_version_query(data) {
        return Some(SysexReply::VersionInquiry(reply));
    }
    None
}

/// No buffer fits two templates: they differ in length.
pub proof fn lemma_templates_apart(data: Seq<u8>)
    ensures
        fits(data, TEXT_ENDED@) ==> spec_parse_device_query(data) is None
            && spec_parse_version_query(data) is None,
        spec_parse_device_query(data) is Some ==> spec_parse_version_query(data) is None,
{
}

} // verus!
