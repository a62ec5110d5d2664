//! The canvas of a Launchpad Mini: the colors that are wanted beside the
//! colors that the device shows, and the messages that carry the one over
//! to the other.
use vstd::prelude::*;
use crate::errors::{FlushError, InvalidCoordinate, TransportError};
use crate::launchpad_mini::model::{
    cell_index, is_cell, rapid_cell, spec_is_valid, CanvasView, DeviceDisplayMode, DIRECT_LIMIT,
    RAPID_PAIRS,
};
use crate::launchpad_mini::output::{Color, Command};
use crate::launchpad_mini::Spec;
use crate::midi_io::OutputDevice;
use crate::protocols::Button80 as Button;

verus! {

/// The colors of a Launchpad Mini's LEDs: those that the device shows, and
/// those that it is to show after the next flush.
pub struct Canvas {
    curr_state: Vec<Color>,
    new_state: Vec<Color>,
    mode: DeviceDisplayMode,
    cursor: usize,
}

impl View for Canvas {
    type V = CanvasView;

    closed spec fn view(&self) -> CanvasView {
        CanvasView {
            flushed: self.curr_state@,
            pending: self.new_state@,
            mode: self.mode,
            cursor: if self.mode is RapidUpdate {
                self.cursor as int
            } else {
                0
            },
        }
    }
}

impl Canvas {
    #[verifier::type_invariant]
    spec fn sized(self) -> bool {
        &&& self.curr_state@.len() == 81
        &&& self.new_state@.len() == 81
        &&& self.cursor < 40
    }

    /// The canvas of a device that was just switched on: every LED is off,
    /// and nothing else is wanted.
    pub fn new() -> (canvas: Canvas)
        ensures
            canvas@.wf(),
            canvas@.flushed == Seq::new(81, |i: int| Color::spec_black()),
            canvas@.pending == Seq::new(81, |i: int| Color::spec_black()),
            canvas@.mode is Normal,
    {
        let mut curr_state: Vec<Color> = Vec::new();
        let mut new_state: Vec<Color> = Vec::new();
        let mut i: u32 = 0;
        while i < Spec::BOUNDING_BOX_WIDTH * Spec::BOUNDING_BOX_HEIGHT
            invariant
                i <= 81,
                curr_state@ == Seq::new(i as nat, |i: int| Color::spec_black()),
                new_state@ == Seq::new(i as nat, |i: int| Color::spec_black()),
            decreases 81 - i,
        {
            curr_state.push(Color::black());
            new_state.push(Color::black());
            i += 1;
        }
        Canvas { curr_state, new_state, mode: DeviceDisplayMode::Normal, cursor: 0 }
    }

    /// The color that the device shows at `(x, y)`.
    pub fn get(&self, x: u32, y: u32) -> (color: Result<Color, InvalidCoordinate>)
        ensures
            self@.wf(),
            spec_is_valid(x as int, y as int) ==> color == Ok::<Color, InvalidCoordinate>(
                self@.flushed[cell_index(x as int, y as int)],
            ),
            !spec_is_valid(x as int, y as int) ==> color == Err::<Color, InvalidCoordinate>(
                InvalidCoordinate { x, y },
            ),
    {
        proof {
            use_type_invariant(self);
        }
        if Spec::is_valid(x, y) {
            Ok(self.curr_state[(y * 9 + x) as usize])
        } else {
            Err(InvalidCoordinate { x, y })
        }
    }

    /// The color that the device is to show at `(x, y)` after the next
    /// flush.
    pub fn get_pending(&self, x: u32, y: u32) -> (color: Result<Color, InvalidCoordinate>)
        ensures
            self@.wf(),
            spec_is_valid(x as int, y as int) ==> color == Ok::<Color, InvalidCoordinate>(
                self@.pending[cell_index(x as int, y as int)],
            ),
            !spec_is_valid(x as int, y as int) ==> color == Err::<Color, InvalidCoordinate>(
                InvalidCoordinate { x, y },
            ),
    {
        proof {
            use_type_invariant(self);
        }
        if Spec::is_valid(x, y) {
            Ok(self.new_state[(y * 9 + x) as usize])
        } else {
            Err(InvalidCoordinate { x, y })
        }
    }

    /// Asks for `color` at `(x, y)`. The device learns of it with the next
    /// flush. A position outside the canvas is reported and changes nothing.
    pub fn set(&mut self, x: u32, y: u32, color: Color) -> (done: Result<(), InvalidCoordinate>)
        ensures
            final(self)@.wf(),
            spec_is_valid(x as int, y as int) ==> done is Ok && final(self)@ == old(
                self,
            )@.with_pending(cell_index(x as int, y as int), color),
            !spec_is_valid(x as int, y as int) ==> done == Err::<(), InvalidCoordinate>(
                InvalidCoordinate { x, y },
            ) && final(self)@ == old(self)@,
    {
        proof {
            use_type_invariant(&*self);
        }
        if Spec::is_valid(x, y) {
            self.new_state[(y * 9 + x) as usize] = color;
            Ok(())
        } else {
            Err(InvalidCoordinate { x, y })
        }
    }

    /// Where the device stands: in a sweep of rapid updates or not.
    pub fn mode(&self) -> (mode: DeviceDisplayMode)
        ensures
            mode == self@.mode,
    {
        self.mode
    }

    /// Whether `changes` lists the dirty cells at the places below `n`.
    spec fn lists_below(self, changes: Seq<(u32, u32, Color)>, n: int) -> bool {
        &&& changes.len() == self@.changes_below(n).len()
        &&& forall|j: int|
            0 <= j < changes.len() ==> #[trigger] changes[j] == (
                (self@.changes_below(n)[j] % 9) as u32,
                (self@.changes_below(n)[j] / 9) as u32,
                self@.pending[self@.changes_below(n)[j]],
            )
    }

    /// Compares the whole grid that is wanted with the whole grid that the
    /// device shows, and lists the cells that differ, row after row.
    pub fn changes(&self) -> (changes: Vec<(u32, u32, Color)>)
        ensures
            self@.wf(),
            changes@ == self@.changed_cells(),
    {
        proof {
            use_type_invariant(self);
        }
        let mut changes: Vec<(u32, u32, Color)> = Vec::new();
        let mut y: u32 = 0;
        while y < Spec::BOUNDING_BOX_HEIGHT
            invariant
                y <= 9,
                self.curr_state@.len() == 81,
                self.new_state@.len() == 81,
                self.lists_below(changes@, 9 * y),
            decreases 9 - y,
        {
            let mut x: u32 = 0;
            while x < Spec::BOUNDING_BOX_WIDTH
                invariant
                    y < 9,
                    x <= 9,
                    self.curr_state@.len() == 81,
                    self.new_state@.len() == 81,
                    self.lists_below(changes@, 9 * y + x),
                decreases 9 - x,
            {
                let place = (y * 9 + x) as usize;
                if Spec::is_valid(x, y) && self.curr_state[place] != self.new_state[place] {
                    changes.push((x, y, self.new_state[place]));
                }
                x += 1;
            }
            y += 1;
        }
        assert(changes@ =~= self@.changed_cells());
        changes
    }

    /// Plans a flush: the commands that make the device show what is
    /// wanted, in the order in which they are to be sent.
    pub fn plan(&self) -> (commands: Vec<Command>)
        ensures
            self@.wf(),
            commands@ == self@.plan(),
    {
        proof {
            use_type_invariant(self);
        }
        let changes = self.changes();
        let mut commands: Vec<Command> = Vec::new();
        if self.mode == DeviceDisplayMode::RapidUpdate {
            commands.push(
                Command::Light {
                    button: Button::ControlButton { index: 0 },
                    color: self.curr_state[0],
                },
            );
        }
        assert(commands@ =~= self@.reset_commands());
        if changes.len() > DIRECT_LIMIT {
            let mut pair: usize = 0;
            while pair < RAPID_PAIRS
                invariant
                    pair <= 40,
                    self.new_state@.len() == 81,
                    commands@ == self@.reset_commands() + self@.rapid_commands().take(
                        pair as int,
                    ),
                decreases 40 - pair,
            {
                let first = self.new_state[rapid_cell_at(2 * pair)];
                let second = self.new_state[rapid_cell_at(2 * pair + 1)];
                commands.push(Command::Rapid { first, second });
                proof {
                    let rapid = self@.rapid_commands();
                    assert(rapid.take(pair as int + 1) =~= rapid.take(pair as int).push(
                        rapid[pair as int],
                    ));
                    assert(commands@ =~= self@.reset_commands() + rapid.take(pair as int + 1));
                }
                pair += 1;
            }
            commands.push(
                Command::Light {
                    button: Button::ControlButton { index: 0 },
                    color: self.new_state[0],
                },
            );
            proof {
                let rapid = self@.rapid_commands();
                assert(rapid.take(40) =~= rapid);
                assert(commands@ =~= self@.reset_commands() + self@.sweep_commands());
            }
        } else {
            let ghost places = self@.changes();
            proof {
                self@.lemma_changes_below(81);
            }
            let mut j: usize = 0;
            while j < changes.len()
                invariant
                    j <= changes@.len(),
                    changes@ == self@.changed_cells(),
                    places == self@.changes(),
                    forall|n: int| 0 <= n < places.len() ==> is_cell(#[trigger] places[n]),
                    commands@ == self@.reset_commands() + self@.direct_commands().take(j as int),
                decreases changes@.len() - j,
            {
                let (x, y, color) = changes[j];
                assert(is_cell(places[j as int]));
                let button = Button::from_abs(x as u8, y as u8);
                assert(button is Some);
                commands.push(Command::Light { button: button.unwrap(), color });
                proof {
                    let direct = self@.direct_commands();
                    assert(direct.take(j as int + 1) =~= direct.take(j as int).push(
                        direct[j as int],
                    ));
                    assert(commands@ =~= self@.reset_commands() + direct.take(j as int + 1));
                }
                j += 1;
            }
            proof {
                let direct = self@.direct_commands();
                assert(direct.take(direct.len() as int) =~= direct);
                assert(commands@ =~= self@.plan());
            }
        }
        commands
    }

    /// Settles one command of a flush, once the connection has said how
    /// the sending of it went. A command that went out is taken note of; a
    /// failure leaves the canvas as it is and ends the flush with `unsent`
    /// commands to go, this one among them.
    pub fn settle(
        &mut self,
        command: &Command,
        outcome: Result<(), TransportError>,
        unsent: usize,
    ) -> (done: Result<(), FlushError>)
        ensures
            final(self)@.wf(),
            outcome is Ok ==> done is Ok && final(self)@ == old(self)@.step(*command),
            outcome matches Err(cause) ==> done == Err::<(), FlushError>(
                FlushError { unsent, cause },
            ) && final(self)@ == old(self)@,
    {
        proof {
            use_type_invariant(&*self);
        }
        match outcome {
            Ok(()) => {
                self.acknowledge(command);
                Ok(())
            },
            Err(cause) => Err(FlushError { unsent, cause }),
        }
    }

    /// Makes the device show what is wanted: see [`Spec::flush`].
    pub fn flush<T: OutputDevice>(&mut self, output: &mut T) -> (done: Result<(), FlushError>)
        ensures
            Spec::spec_flush(old(self)@, final(self)@, done),
    {
        Spec::flush(self, output)
    }

    /// Takes note that the device took `command`.
    pub fn acknowledge(&mut self, command: &Command)
        ensures
            final(self)@.wf(),
            final(self)@ == old(self)@.step(*command),
    {
        proof {
            use_type_invariant(&*self);
        }
        match command {
            Command::Light { button, color } => {
                if button.is_valid() {
                    let place = button.abs_y() as usize * 9 + button.abs_x() as usize;
                    self.curr_state[place] = *color;
                    self.mode = DeviceDisplayMode::Normal;
                    self.cursor = 0;
                }
            },
            Command::Rapid { first, second } => {
                let cursor = if self.mode == DeviceDisplayMode::RapidUpdate {
                    self.cursor
                } else {
                    0
                };
                self.curr_state[rapid_cell_at(2 * cursor)] = *first;
                self.curr_state[rapid_cell_at(2 * cursor + 1)] = *second;
                self.mode = DeviceDisplayMode::RapidUpdate;
                self.cursor = if cursor + 1 == RAPID_PAIRS {
                    0
                } else {
                    cursor + 1
                };
            },
        }
        assert(self@ =~= old(self)@.step(*command));
    }
}

/// The place in a stored grid of the LED that has turn `k` in a sweep.
fn rapid_cell_at(k: usize) -> (place: usize)
    requires
        k < 80,
    ensures
        place == rapid_cell(k as int),
        is_cell(place as int),
{
    if k < 64 {
        (1 + k / 8) * 9 + k % 8
    } else if k < 72 {
        (1 + (k - 64)) * 9 + 8
    } else {
        k - 72
    }
}

} // verus!
