//! What a Launchpad S or Mini sends.
use vstd::prelude::*;
use crate::errors::{decodes_to, DecodeError, DecodeErrorKind};
use crate::generic::geometry::{spec_wire_to_grid, wire_to_grid};
use crate::protocols::sysex::{spec_sysex_reply, sysex_reply, SysexReply};
use crate::protocols::Button80 as Button;
use crate::protocols::{CONTROL_BAND_END, CONTROL_BAND_START};

verus! {

/// A message from the device.
#[derive(Debug, Clone, Copy, PartialEq, Eq, Hash, Structural)]
pub enum Message {
    /// A button was pressed.
    Press { button: Button },
    /// A button was released.
    Release { button: Button },
    /// A text that was sent for scrolling has run through, or starts over.
    TextEndedOrLooped,
    /// The answer to a device inquiry.
    DeviceInquiry {
        device_id: u8,
        family_code: u16,
        family_member_code: u16,
        firmware_revision: u32,
    },
    /// The answer to a version inquiry.
    VersionInquiry { bootloader_version: u32, firmware_version: u32, bootloader_size: u16 },
}

/// The names under which a model's input is found and registered.
pub trait GenericInput {
    /// The name that the input connection is given.
    const MIDI_CONNECTION_NAME: &'static str;

    /// The word by which the model's connection is told from the others.
    const MIDI_DEVICE_KEYWORD: &'static str;
}

/// The input side of a Launchpad S or Mini.
pub struct Input;

impl GenericInput for Input {
    const MIDI_CONNECTION_NAME: &'static str = "Launchy Mini Input";

    const MIDI_DEVICE_KEYWORD: &'static str = "Launchpad Mini";
}

/// The grid button that a note stands for.
pub open spec fn spec_decode_grid_button(btn: u8) -> Option<Button> {
    match spec_wire_to_grid(btn) {
        Some((x, y)) => Some(Button::GridButton { x, y }),
        None => None,
    }
}

/// What a velocity says of a button: 127 that it went down, 0 that it came
/// up. The device sends no other.
pub open spec fn spec_button_message(button: Button, velocity: u8) -> Result<
    Message,
    DecodeErrorKind,
> {
    if velocity == 127 {
        Ok(Message::Press { button })
    } else if velocity == 0 {
        Ok(Message::Release { button })
    } else {
        Err(DecodeErrorKind::UnexpectedVelocity)
    }
}

/// What three bytes mean: a note-on (status `0x90`) for a button of the
/// grid, or a controller change (status `0xB0`) for a control button.
pub open spec fn spec_decode_short_message(data: Seq<u8>) -> Result<Message, DecodeErrorKind> {
    if data.len() != 3 {
        Err(DecodeErrorKind::UnexpectedMessage)
    } else if data[0] == 0x90 {
        match spec_decode_grid_button(data[1]) {
            Some(button) => spec_button_message(button, data[2]),
            None => Err(DecodeErrorKind::UnexpectedMessage),
        }
    } else if data[0] == 0xB0 && CONTROL_BAND_START <= data[1] <= CONTROL_BAND_END {
        spec_button_message(
            Button::ControlButton { index: (data[1] - CONTROL_BAND_START) as u8 },
            data[2],
        )
    } else {
        Err(DecodeErrorKind::UnexpectedMessage)
    }
}

/// A system-exclusive message of the device as a message of this model.
pub open spec fn spec_reply_message(reply: SysexReply) -> Message {
    match reply {
        SysexReply::TextEndedOrLooped => Message::TextEndedOrLooped,
        SysexReply::DeviceInquiry(reply) => Message::DeviceInquiry {
            device_id: reply.device_id,
            family_code: reply.family_code,
            family_member_code: reply.family_member_code,
            firmware_revision: reply.firmware_revision,
        },
        SysexReply::VersionInquiry(reply) => Message::VersionInquiry {
            bootloader_version: reply.bootloader_version,
            firmware_version: reply.firmware_version,
            bootloader_size: reply.bootloader_size,
        },
    }
}

/// What a system-exclusive buffer means: it has the shape of exactly one of
/// the known replies, or it is rejected whole.
pub open spec fn spec_decode_sysex_message(data: Seq<u8>) -> Result<Message, DecodeErrorKind> {
    match spec_sysex_reply(data) {
        Some(reply) => Ok(spec_reply_message(reply)),
        None => Err(DecodeErrorKind::UnexpectedSysexMessage),
    }
}

/// What a buffer means: three bytes are a short message, anything else is
/// read as a system-exclusive message.
pub open spec fn spec_decode_message(data: Seq<u8>) -> Result<Message, DecodeErrorKind> {
    if data.len() == 3 {
        spec_decode_short_message(data)
    } else {
        spec_decode_sysex_message(data)
    }
}

/// The grid button that the note `btn` stands for, or `None` where the note
/// is outside the grid.
pub fn decode_grid_button(btn: u8) -> (button: Option<Button>)
    ensures
        button == spec_decode_grid_button(btn),
{
    match wire_to_grid(btn) {
        Some((x, y)) => Some(Button::GridButton { x, y }),
        None => None,
    }
}

fn button_message(button: Button, velocity: u8, data: &[u8]) -> (decoded: Result<
    Message,
    DecodeError,
>)
    ensures
        decodes_to(decoded, data@, spec_button_message(button, velocity)),
{
    if velocity == 127 {
        Ok(Message::Press { button })
    } else if velocity == 0 {
        Ok(Message::Release { button })
    } else {
        Err(DecodeError::new(DecodeErrorKind::UnexpectedVelocity, data))
    }
}

/// Decodes a short message.
///
/// The device reports a release as a note-on with velocity 0 and never
/// sends a note-off, so a velocity other than 0 and 127 is an error, and so
/// is every status byte or number that the model does not use.
pub fn decode_short_message(data: &[u8]) -> (decoded: Result<Message, DecodeError>)
    ensures
        decodes_to(decoded, data@, spec_decode_short_message(data@)),
{
    if data.len() != 3 {
        return Err(DecodeError::new(DecodeErrorKind::UnexpectedMessage, data));
    }
    let status = data[0];
    let number = data[1];
    let velocity = data[2];
    if status == 0x90 {
        match decode_grid_button(number) {
            Some(button) => button_message(button, velocity, data),
            None => Err(DecodeError::new(DecodeErrorKind::UnexpectedMessage, data)),
        }
    } else if status == 0xB0 && CONTROL_BAND_START <= number && number <= CONTROL_BAND_END {
        let button = Button::ControlButton { index: number - CONTROL_BAND_START };
        button_message(button, velocity, data)
    } else {
        Err(DecodeError::new(DecodeErrorKind::UnexpectedMessage, data))
    }
}

/// Turns a system-exclusive message of the device into a message of this
/// model.
pub fn reply_message(reply: SysexReply) -> (message: Message)
    ensures
        message == spec_reply_message(reply),
{
    match reply {
        SysexReply::TextEndedOrLooped => Message::TextEndedOrLooped,
        SysexReply::DeviceInquiry(reply) => Message::DeviceInquiry {
            device_id: reply.device_id,
            family_code: reply.family_code,
            family_member_code: reply.family_member_code,
            firmware_revision: reply.firmware_revision,
        },
        SysexReply::VersionInquiry(reply) => Message::VersionInquiry {
            bootloader_version: reply.bootloader_version,
            firmware_version: reply.firmware_version,
            bootloader_size: reply.bootloader_size,
        },
    }
}

/// Decodes a system-exclusive message: one of the known replies, byte for
/// byte, or an error. Nothing is read out of a buffer that does not fit.
pub fn decode_sysex_message(data: &[u8]) -> (decoded: Result<Message, DecodeError>)
    ensures
        decodes_to(decoded, data@, spec_decode_sysex_message(data@)),
{
    match sysex_reply(data) {
        Some(reply) => Ok(reply_message(reply)),
        None => Err(DecodeError::new(DecodeErrorKind::UnexpectedSysexMessage, data)),
    }
}

impl Input {
    /// Decodes one buffer as it came from the device. The time of arrival
    /// plays no part in what the bytes mean.
    pub fn decode_message(_timestamp: u64, data: &[u8]) -> (decoded: Result<Message, DecodeError>)
        ensures
            decodes_to(decoded, data@, spec_decode_message(data@)),
    {
        if data.len() == 3 {
            decode_short_message(data)
        } else {
            decode_sysex_message(data)
        }
    }
}

/// A note of the grid that comes with velocity 127 and then with velocity 0
/// is a press and then a release of one button; with any other velocity it
/// is rejected, and so is every note outside the grid.
pub proof fn lemma_press_then_release(note: u8, velocity: u8)
    ensures
        spec_decode_grid_button(note) matches Some(button) ==> {
            &&& spec_decode_short_message(seq![0x90u8, note, 127u8]) == Ok::<
                Message,
                DecodeErrorKind,
            >(Message::Press { button })
            &&& spec_decode_short_message(seq![0x90u8, note, 0u8]) == Ok::<
                Message,
                DecodeErrorKind,
            >(Message::Release { button })
        },
        velocity != 0 && velocity != 127 ==> spec_decode_short_message(
            seq![0x90u8, note, velocity],
        ) is Err,
        spec_decode_grid_button(note) is None ==> spec_decode_short_message(
            seq![0x90u8, note, velocity],
        ) == Err::<Message, DecodeErrorKind>(DecodeErrorKind::UnexpectedMessage),
{
}

/// A decoded press or release names a button that the device has.
pub proof fn lemma_decoded_button_is_valid(data: Seq<u8>)
    ensures
        spec_decode_message(data) matches Ok(Message::Press { button }) ==> button.is_valid(),
        spec_decode_message(data) matches Ok(Message::Release { button }) ==> button.is_valid(),
{
}

} // verus!
