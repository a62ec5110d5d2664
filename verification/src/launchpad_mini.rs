//! The Launchpad Mini.
//!
//! The Mini speaks the grammar of [`crate::generic`]. Its LEDs have a red
//! and a green element of four levels each, and it can be repainted either
//! button by button or, two buttons to a message, in one sweep over all of
//! them.
pub mod canvas;
pub mod lemmas;
pub mod model;
pub mod output;

pub use crate::generic::input::{Input, Message};
pub use crate::protocols::Button80 as Button;
pub use canvas::Canvas;
pub use model::{CanvasView, DeviceDisplayMode};
pub use output::{Buffer, Color, Command, DoubleBuffering, DoubleBufferingBehavior};

use vstd::prelude::*;
use crate::canvas::CanvasMessage;
use crate::errors::{DecodeErrorKind, FlushError};
use crate::generic::input::spec_decode_short_message;
use crate::launchpad_mini::model::spec_is_valid;
use crate::launchpad_mini::output::spec_light;
use crate::midi_io::OutputDevice;

verus! {

/// The make of a Launchpad Mini's canvas: a square of nine by nine places
/// with the upper right corner missing, LEDs of four levels, and the way in
/// which the canvas is flushed and its buttons are reported.
pub struct Spec;

impl Spec {
    pub const BOUNDING_BOX_WIDTH: u32 = 9;

    pub const BOUNDING_BOX_HEIGHT: u32 = 9;

    pub const COLOR_PRECISION: u16 = 4;

    /// Tells whether the canvas has a cell in column `x` of row `y`.
    pub fn is_valid(x: u32, y: u32) -> (valid: bool)
        ensures
            valid == spec_is_valid(x as int, y as int),
    {
        if x > 8 || y > 8 {
            return false;
        }
        if x == 8 && y == 0 {
            return false;
        }
        true
    }

    /// How a flush leaves a canvas.
    ///
    /// A flush that sent all of its commands leaves the device showing
    /// what is wanted, and a flush that follows it at once has nothing to
    /// send. One that the connection cut short leaves the canvas
    /// as the commands before the failing one made it: what these painted
    /// is remembered, what the others were to paint is still to do. A flush
    /// with nothing to send cannot fail.
    pub open spec fn spec_flush(before: CanvasView, after: CanvasView, done: Result<(), FlushError>)
        -> bool {
        &&& after.wf()
        &&& after.pending == before.pending
        &&& before.plan().len() == 0 ==> done is Ok
        &&& done is Ok ==> after.in_sync() && after.plan().len() == 0 && after == before.after(
            before.plan(),
            before.plan().len() as int,
        )
        &&& done matches Err(error) ==> 1 <= error.unsent <= before.plan().len() && after
            == before.after(before.plan(), before.plan().len() - error.unsent)
    }

    /// Makes the device show what the canvas wants.
    ///
    /// The commands of [`Canvas::plan`] are written out and handed to
    /// `output` one by one, in order. The first failure ends the flush:
    /// nothing is sent again and nothing more is sent.
    pub fn flush<T: OutputDevice>(canvas: &mut Canvas, output: &mut T) -> (done: Result<
        (),
        FlushError,
    >)
        ensures
            Self::spec_flush(old(canvas)@, final(canvas)@, done),
    {
        let commands = canvas.plan();
        let ghost start = canvas@;
        proof {
            start.lemma_plan_brings_in_sync();
            start.lemma_plan_can_be_sent();
            start.after(start.plan(), start.plan().len() as int).lemma_in_sync_plans_nothing();
        }
        let mut sent: usize = 0;
        while sent < commands.len()
            invariant
                sent <= commands@.len(),
                commands@ == start.plan(),
                start == old(canvas)@,
                start.wf(),
                canvas@.wf(),
                canvas@.pending == start.pending,
                canvas@ == start.after(commands@, sent as int),
                forall|j: int| 0 <= j < commands@.len() ==> (#[trigger] commands@[j]).can_be_sent(),
            decreases commands@.len() - sent,
        {
            let command = commands[sent];
            let bytes = command.encode();
            assert(command.can_be_sent());
            let outcome = output.send(bytes.unwrap().as_slice());
            let settled = canvas.settle(&command, outcome, commands.len() - sent);
            if let Err(error) = settled {
                return Err(error);
            }
            sent += 1;
        }
        Ok(())
    }

    /// The canvas event that a message of the device is, if it is one:
    /// the press or the release of a button that the device has, at the
    /// button's place on the canvas.
    pub open spec fn spec_convert_message(msg: Message) -> Option<CanvasMessage> {
        match msg {
            Message::Press { button } => if button.is_valid() {
                Some(
                    CanvasMessage::Press {
                        x: button.spec_abs_x() as u32,
                        y: button.spec_abs_y() as u32,
                    },
                )
            } else {
                None
            },
            Message::Release { button } => if button.is_valid() {
                Some(
                    CanvasMessage::Release {
                        x: button.spec_abs_x() as u32,
                        y: button.spec_abs_y() as u32,
                    },
                )
            } else {
                None
            },
            _ => None,
        }
    }

    /// Turns a message of the device into the canvas event that it is.
    /// Every other message is `None` here; it is for the caller to use it.
    pub fn convert_message(msg: Message) -> (event: Option<CanvasMessage>)
        ensures
            event == Self::spec_convert_message(msg),
    {
        match msg {
            Message::Press { button } => {
                if button.is_valid() {
                    Some(
                        CanvasMessage::Press {
                            x: button.abs_x() as u32,
                            y: button.abs_y() as u32,
                        },
                    )
                } else {
                    None
                }
            },
            Message::Release { button } => {
                if button.is_valid() {
                    Some(
                        CanvasMessage::Release {
                            x: button.abs_x() as u32,
                            y: button.abs_y() as u32,
                        },
                    )
                } else {
                    None
                }
            },
            _ => None,
        }
    }

    /// A canvas event lies on the canvas.
    pub proof fn lemma_event_on_canvas(msg: Message)
        ensures
            Self::spec_convert_message(msg) matches Some(CanvasMessage::Press { x, y })
                ==> spec_is_valid(x as int, y as int),
            Self::spec_convert_message(msg) matches Some(CanvasMessage::Release { x, y })
                ==> spec_is_valid(x as int, y as int),
    {
    }

    /// Lighting the button at a cell and pressing it name the same cell:
    /// what the device sends when the button with the number of the light
    /// message goes down is decoded as a press at that cell.
    pub proof fn lemma_light_then_press(x: u32, y: u32, color: Color)
        requires
            spec_is_valid(x as int, y as int),
        ensures
            ({
                let button = Button::spec_from_abs(x as u8, y as u8);
                let sent = spec_light(button->Some_0, color);
                let reply = seq![sent->Some_0[0], sent->Some_0[1], 127u8];
                &&& button is Some
                &&& sent is Some
                &&& spec_decode_short_message(reply) == Ok::<Message, DecodeErrorKind>(
                    Message::Press { button: button->Some_0 },
                )
                &&& Self::spec_convert_message(Message::Press { button: button->Some_0 }) == Some(
                    CanvasMessage::Press { x, y },
                )
            }),
    {
    }
}

} // verus!
