//! What a Launchpad Mini is sent.
use vstd::prelude::*;
use crate::generic::geometry::{grid_to_wire, spec_grid_to_wire};
use crate::protocols::Button80 as Button;
use crate::protocols::CONTROL_BAND_START;

verus! {

/// The number of levels that each element of an LED has.
pub const COLOR_PRECISION: u16 = 4;

/// The color of an LED, as the device takes it: a level of red and a level
/// of green, each from 0 (off) to 3 (full).
#[derive(Debug, Clone, Copy, PartialEq, Eq, Hash, Structural)]
pub struct Color {
    red: u8,
    green: u8,
}

impl Color {
    #[verifier::type_invariant]
    spec fn in_range(self) -> bool {
        self.red < COLOR_PRECISION && self.green < COLOR_PRECISION
    }

    /// The level of the red element.
    pub closed spec fn spec_red(self) -> int {
        self.red as int
    }

    /// The level of the green element.
    pub closed spec fn spec_green(self) -> int {
        self.green as int
    }

    /// The color with both elements off.
    pub closed spec fn spec_black() -> Color {
        Color { red: 0, green: 0 }
    }

    /// The color with the given levels, or `None` where a level is above 3.
    pub fn new(red: u8, green: u8) -> (color: Option<Color>)
        ensures
            color is Some <==> red < COLOR_PRECISION && green < COLOR_PRECISION,
            color matches Some(c) ==> c.spec_red() == red && c.spec_green() == green,
    {
        if red < 4 && green < 4 {
            Some(Color { red, green })
        } else {
            None
        }
    }

    /// The color with both elements off, which a device shows when it is
    /// switched on.
    pub fn black() -> (color: Color)
        ensures
            color == Self::spec_black(),
            color.spec_red() == 0,
            color.spec_green() == 0,
    {
        Color { red: 0, green: 0 }
    }

    /// The level of the red element.
    pub fn red(&self) -> (level: u8)
        ensures
            level == self.spec_red(),
            level < COLOR_PRECISION,
    {
        proof {
            use_type_invariant(self);
        }
        self.red
    }

    /// The level of the green element.
    pub fn green(&self) -> (level: u8)
        ensures
            level == self.spec_green(),
            level < COLOR_PRECISION,
    {
        proof {
            use_type_invariant(self);
        }
        self.green
    }

    /// Black has both elements off.
    pub proof fn lemma_black_levels()
        ensures
            Self::spec_black().spec_red() == 0,
            Self::spec_black().spec_green() == 0,
    {
    }

    /// Two colors with the same levels are one color.
    pub proof fn lemma_same_levels(self, other: Color)
        requires
            self.spec_red() == other.spec_red(),
            self.spec_green() == other.spec_green(),
        ensures
            self == other,
    {
    }
}

/// What becomes of the other buffer's LED when one buffer's LED is set.
/// The device keeps two buffers, of which it shows one.
#[derive(Debug, Clone, Copy, PartialEq, Eq, Hash, Structural)]
pub enum DoubleBufferingBehavior {
    /// The other buffer keeps what it has.
    Keep,
    /// The other buffer gets the same color.
    Copy,
    /// The other buffer's LED is switched off.
    Clear,
}

impl DoubleBufferingBehavior {
    /// The two bits by which the behavior goes into a color byte.
    pub open spec fn spec_code(self) -> int {
        match self {
            DoubleBufferingBehavior::Keep => 0,
            DoubleBufferingBehavior::Copy => 1,
            DoubleBufferingBehavior::Clear => 2,
        }
    }

    /// The two bits by which the behavior goes into a color byte.
    pub fn code(&self) -> (code: u8)
        ensures
            code == self.spec_code(),
    {
        match self {
            DoubleBufferingBehavior::Keep => 0,
            DoubleBufferingBehavior::Copy => 1,
            DoubleBufferingBehavior::Clear => 2,
        }
    }
}

/// The byte that sets an LED: green in bits 5 and 4, the buffering behavior
/// in bits 3 and 2, red in bits 1 and 0.
pub open spec fn spec_color_code(color: Color, behavior: DoubleBufferingBehavior) -> int {
    color.spec_green() * 16 + behavior.spec_code() * 4 + color.spec_red()
}

/// The bytes that set one button's LED: a note-on with the button's note
/// for a button of the grid, a controller change for a control button.
/// There are none for a button that the device lacks.
pub open spec fn spec_set_button(
    button: Button,
    color: Color,
    behavior: DoubleBufferingBehavior,
) -> Option<Seq<u8>> {
    match button {
        Button::GridButton { x, y } => match spec_grid_to_wire(x, y) {
            Some(note) => Some(seq![0x90u8, note, spec_color_code(color, behavior) as u8]),
            None => None,
        },
        Button::ControlButton { index } => if index <= 7 {
            Some(
                seq![
                    0xB0u8,
                    (CONTROL_BAND_START + index) as u8,
                    spec_color_code(color, behavior) as u8,
                ],
            )
        } else {
            None
        },
    }
}

/// The bytes that light a button: it is set in both buffers.
pub open spec fn spec_light(button: Button, color: Color) -> Option<Seq<u8>> {
    spec_set_button(button, color, DoubleBufferingBehavior::Copy)
}

/// The bytes of a rapid update, which sets the next two LEDs in the
/// device's own order.
pub open spec fn spec_set_button_rapid(
    color1: Color,
    behavior1: DoubleBufferingBehavior,
    color2: Color,
    behavior2: DoubleBufferingBehavior,
) -> Seq<u8> {
    seq![
        0x92u8,
        spec_color_code(color1, behavior1) as u8,
        spec_color_code(color2, behavior2) as u8,
    ]
}

/// Packs a color and a buffering behavior into the byte that sets an LED.
pub fn make_color_code(color: Color, behavior: DoubleBufferingBehavior) -> (code: u8)
    ensures
        code == spec_color_code(color, behavior),
        code < 64,
{
    color.green() * 16 + behavior.code() * 4 + color.red()
}

/// Writes the message that sets one button's LED, or `None` where the
/// device has no such button.
pub fn set_button(button: Button, color: Color, behavior: DoubleBufferingBehavior) -> (bytes:
    Option<Vec<u8>>)
    ensures
        bytes is Some <==> button.is_valid(),
        bytes is Some <==> spec_set_button(button, color, behavior) is Some,
        bytes matches Some(b) ==> Some(b@) == spec_set_button(button, color, behavior),
{
    let light_code = make_color_code(color, behavior);
    match button {
        Button::GridButton { x, y } => match grid_to_wire(x, y) {
            Some(note) => {
                let bytes = vec![0x90u8, note, light_code];
                assert(bytes@ =~= spec_set_button(button, color, behavior)->Some_0);
                Some(bytes)
            },
            None => None,
        },
        Button::ControlButton { index } => {
            if index <= 7 {
                let bytes = vec![0xB0u8, CONTROL_BAND_START + index, light_code];
                assert(bytes@ =~= spec_set_button(button, color, behavior)->Some_0);
                Some(bytes)
            } else {
                None
            }
        },
    }
}

/// Writes the message that lights a button, or `None` where the device has
/// no such button.
pub fn light(button: Button, color: Color) -> (bytes: Option<Vec<u8>>)
    ensures
        bytes is Some <==> button.is_valid(),
        bytes is Some <==> spec_light(button, color) is Some,
        bytes matches Some(b) ==> Some(b@) == spec_light(button, color),
{
    set_button(button, color, DoubleBufferingBehavior::Copy)
}

/// Writes a rapid update. The first one after any other message sets the
/// first two LEDs of the device's order, each further one the next two.
pub fn set_button_rapid(
    color1: Color,
    behavior1: DoubleBufferingBehavior,
    color2: Color,
    behavior2: DoubleBufferingBehavior,
) -> (bytes: Vec<u8>)
    ensures
        bytes@ == spec_set_button_rapid(color1, behavior1, color2, behavior2),
{
    let bytes = vec![
        0x92u8,
        make_color_code(color1, behavior1),
        make_color_code(color2, behavior2),
    ];
    assert(bytes@ =~= spec_set_button_rapid(color1, behavior1, color2, behavior2));
    bytes
}

/// One of the two buffers of LED states that the device keeps.
#[derive(Debug, Clone, Copy, PartialEq, Eq, Hash, Structural)]
pub enum Buffer {
    A,
    B,
}

impl Buffer {
    /// The bit that names the buffer on the wire.
    pub open spec fn spec_bit(self) -> int {
        match self {
            Buffer::A => 0,
            Buffer::B => 1,
        }
    }

    /// The bit that names the buffer on the wire.
    pub fn bit(&self) -> (bit: u8)
        ensures
            bit == self.spec_bit(),
    {
        match self {
            Buffer::A => 0,
            Buffer::B => 1,
        }
    }
}

/// How the device uses its two buffers. The device is put into such a
/// state by a message of its own and by nothing else.
#[derive(Debug, Clone, Copy, PartialEq, Eq, Hash, Structural)]
pub struct DoubleBuffering {
    /// Whether the buffer that comes to be edited starts as a copy of the
    /// one that comes to be displayed.
    pub copy: bool,
    /// Whether the device keeps swapping the displayed buffer by itself, so
    /// that what differs between the two flashes.
    pub flash: bool,
    /// The buffer that messages write to.
    pub edited_buffer: Buffer,
    /// The buffer that is shown.
    pub displayed_buffer: Buffer,
}

/// The bytes that put the device into a double buffering state: a
/// controller change of number 0 whose value has bit 5 set, the copy flag in
/// bit 4, the flash flag in bit 3, the edited buffer in bit 2 and the
/// displayed buffer in bit 0.
pub open spec fn spec_control_double_buffering(state: DoubleBuffering) -> Seq<u8> {
    seq![
        0xB0u8,
        0u8,
        (32 + (if state.copy {
            16int
        } else {
            0int
        }) + (if state.flash {
            8int
        } else {
            0int
        }) + state.edited_buffer.spec_bit() * 4 + state.displayed_buffer.spec_bit()) as u8,
    ]
}

/// Writes the message that puts the device into a double buffering state.
pub fn control_double_buffering(state: DoubleBuffering) -> (bytes: Vec<u8>)
    ensures
        bytes@ == spec_control_double_buffering(state),
{
    let copy: u8 = if state.copy {
        16
    } else {
        0
    };
    let flash: u8 = if state.flash {
        8
    } else {
        0
    };
    let value: u8 = 32 + copy + flash + state.edited_buffer.bit() * 4
        + state.displayed_buffer.bit();
    let bytes = vec![0xB0u8, 0u8, value];
    assert(bytes@ =~= spec_control_double_buffering(state));
    bytes
}

/// One message of a repaint.
#[derive(Debug, Clone, Copy, PartialEq, Eq, Hash, Structural)]
pub enum Command {
    /// Light one button.
    Light { button: Button, color: Color },
    /// Set the next two LEDs of the device's own order.
    Rapid { first: Color, second: Color },
}

impl Command {
    /// The bytes of the command. Both kinds set the LED in both buffers.
    pub open spec fn spec_encode(self) -> Option<Seq<u8>> {
        match self {
            Command::Light { button, color } => spec_light(button, color),
            Command::Rapid { first, second } => Some(
                spec_set_button_rapid(
                    first,
                    DoubleBufferingBehavior::Copy,
                    second,
                    DoubleBufferingBehavior::Copy,
                ),
            ),
        }
    }

    /// Whether the command can be sent: all can but the lighting of a
    /// button that the device lacks.
    pub open spec fn can_be_sent(self) -> bool {
        self matches Command::Light { button, .. } ==> button.is_valid()
    }

    /// Writes the command as the one message that it is, or `None` where it
    /// names a button that the device lacks.
    pub fn encode(&self) -> (bytes: Option<Vec<u8>>)
        ensures
            bytes is Some <==> self.can_be_sent(),
            bytes is Some <==> self.spec_encode() is Some,
            bytes matches Some(b) ==> Some(b@) == self.spec_encode(),
    {
        match self {
            Command::Light { button, color } => light(*button, *color),
            Command::Rapid { first, second } => Some(
                set_button_rapid(
                    *first,
                    DoubleBufferingBehavior::Copy,
                    *second,
                    DoubleBufferingBehavior::Copy,
                ),
            ),
        }
    }
}

} // verus!
