//! The canvas of a Launchpad Mini as a value, and what the messages of a
//! repaint do to it.
use vstd::prelude::*;
use crate::launchpad_mini::output::{Color, Command};
use crate::protocols::Button80 as Button;

verus! {

/// The number of rapid updates that set every LED once.
pub const RAPID_PAIRS: usize = 40;

/// The largest number of changed cells that is still repainted button by
/// button. A sweep takes one message for two cells, whether they changed or
/// not, so it is the faster way from half of the cells on.
pub const DIRECT_LIMIT: usize = 40;

/// What the next rapid update would do on the device.
#[derive(Debug, Clone, Copy, PartialEq, Eq, Hash, Structural)]
pub enum DeviceDisplayMode {
    /// The device received something other than a rapid update last: a
    /// rapid update would start at the first LED.
    Normal,
    /// The device received a rapid update last: another one goes on where
    /// that one stopped.
    RapidUpdate,
}

/// Whether the canvas has a cell in column `x` of row `y`. Row 0 holds the
/// control buttons, column 8 the round buttons beside the grid; where the
/// two meet there is nothing.
pub open spec fn spec_is_valid(x: int, y: int) -> bool {
    0 <= x <= 8 && 0 <= y <= 8 && !(x == 8 && y == 0)
}

/// The place of `(x, y)` in a grid that is stored row after row.
pub open spec fn cell_index(x: int, y: int) -> int {
    y * 9 + x
}

/// Whether place `i` of a stored grid is a cell of the canvas.
pub open spec fn is_cell(i: int) -> bool {
    0 <= i < 81 && i != 8
}

/// The button at place `i` of a stored grid.
pub open spec fn cell_button(i: int) -> Button {
    Button::spec_from_abs((i % 9) as u8, (i / 9) as u8)->Some_0
}

/// The place in a stored grid of the LED that a button has.
pub open spec fn button_cell(button: Button) -> Option<int> {
    if button.is_valid() {
        Some(cell_index(button.spec_abs_x(), button.spec_abs_y()))
    } else {
        None
    }
}

/// The place in a stored grid of the `k`-th LED in the order in which the
/// device takes rapid updates: the eight rows of the grid from the top,
/// each from the left; then the round buttons beside the grid from the top;
/// then the control buttons from the left.
pub open spec fn rapid_cell(k: int) -> int {
    if k < 64 {
        cell_index(k % 8, 1 + k / 8)
    } else if k < 72 {
        cell_index(8, 1 + (k - 64))
    } else {
        cell_index(k - 72, 0)
    }
}

/// The turn that the cell at place `i` has in the order of rapid updates.
pub open spec fn rapid_position(i: int) -> int {
    if i / 9 == 0 {
        72 + i % 9
    } else if i % 9 == 8 {
        64 + (i / 9 - 1)
    } else {
        (i / 9 - 1) * 8 + i % 9
    }
}

/// A canvas as a value: what the device shows, what it is to show, and
/// where the device stands in a sweep.
#[verifier::ext_equal]
pub struct CanvasView {
    /// The colors that the device shows, row after row.
    pub flushed: Seq<Color>,
    /// The colors that are wanted, row after row.
    pub pending: Seq<Color>,
    pub mode: DeviceDisplayMode,
    /// The number of rapid updates that the device took since it last took
    /// anything else, counted round the forty of a sweep.
    pub cursor: int,
}

impl CanvasView {
    /// Whether the value is a canvas: both grids have all their places,
    /// and the device stands at one of the forty steps of a sweep, at the
    /// first one unless it is in a sweep.
    pub open spec fn wf(self) -> bool {
        &&& self.flushed.len() == 81
        &&& self.pending.len() == 81
        &&& 0 <= self.cursor < 40
        &&& self.mode is Normal ==> self.cursor == 0
    }

    /// The canvas with the color at place `i` wanted to be `color`.
    pub open spec fn with_pending(self, i: int, color: Color) -> CanvasView {
        CanvasView { pending: self.pending.update(i, color), ..self }
    }

    /// Whether the cell at place `i` is to show another color than it does.
    pub open spec fn dirty(self, i: int) -> bool {
        is_cell(i) && self.flushed[i] != self.pending[i]
    }

    /// The places below `n` whose cells are dirty, in rising order.
    pub open spec fn changes_below(self, n: int) -> Seq<int>
        decreases n,
    {
        if n <= 0 {
            Seq::empty()
        } else if self.dirty(n - 1) {
            self.changes_below(n - 1).push(n - 1)
        } else {
            self.changes_below(n - 1)
        }
    }

    /// The places of all dirty cells, row after row.
    pub open spec fn changes(self) -> Seq<int> {
        self.changes_below(81)
    }

    /// The dirty cells, row after row, each as its column, its row and the
    /// color that it is to show.
    pub open spec fn changed_cells(self) -> Seq<(u32, u32, Color)> {
        Seq::new(
            self.changes().len(),
            |j: int|
                (
                    (self.changes()[j] % 9) as u32,
                    (self.changes()[j] / 9) as u32,
                    self.pending[self.changes()[j]],
                ),
        )
    }

    /// Whether the device shows what is wanted and stands in no sweep.
    pub open spec fn in_sync(self) -> bool {
        &&& self.mode is Normal
        &&& forall|i: int| is_cell(i) ==> self.flushed[i] == self.pending[i]
    }

    /// The canvas after the device took `command`.
    ///
    /// A lit button shows its color, and a sweep is over. A rapid update
    /// sets the next two LEDs of the sweep; the forty-first starts over. A
    /// command that cannot be sent changes nothing.
    pub open spec fn step(self, command: Command) -> CanvasView {
        match command {
            Command::Light { button, color } => match button_cell(button) {
                Some(i) => CanvasView {
                    flushed: self.flushed.update(i, color),
                    mode: DeviceDisplayMode::Normal,
                    cursor: 0,
                    ..self
                },
                None => self,
            },
            Command::Rapid { first, second } => CanvasView {
                flushed: self.flushed.update(rapid_cell(2 * self.cursor), first).update(
                    rapid_cell(2 * self.cursor + 1),
                    second,
                ),
                mode: DeviceDisplayMode::RapidUpdate,
                cursor: if self.cursor + 1 == 40 {
                    0
                } else {
                    self.cursor + 1
                },
                ..self
            },
        }
    }

    /// The canvas after the device took the first `count` of `commands`.
    pub open spec fn after(self, commands: Seq<Command>, count: int) -> CanvasView
        decreases count,
    {
        if count <= 0 {
            self
        } else {
            self.after(commands, count - 1).step(commands[count - 1])
        }
    }

    /// What ends a sweep that the device was left in: the first control
    /// button is lit in the color that it shows.
    pub open spec fn reset_commands(self) -> Seq<Command> {
        if self.mode is RapidUpdate {
            seq![light_first_control(self.flushed)]
        } else {
            Seq::empty()
        }
    }

    /// One lighting for each dirty cell, row after row.
    pub open spec fn direct_commands(self) -> Seq<Command> {
        Seq::new(
            self.changes().len(),
            |j: int|
                Command::Light {
                    button: cell_button(self.changes()[j]),
                    color: self.pending[self.changes()[j]],
                },
        )
    }

    /// The forty rapid updates of a sweep, which set every LED to the color
    /// that is wanted there.
    pub open spec fn rapid_commands(self) -> Seq<Command> {
        Seq::new(
            40,
            |p: int|
                Command::Rapid {
                    first: self.pending[rapid_cell(2 * p)],
                    second: self.pending[rapid_cell(2 * p + 1)],
                },
        )
    }

    /// A sweep, and what ends it: the first control button is lit in the
    /// color that the sweep gave it.
    pub open spec fn sweep_commands(self) -> Seq<Command> {
        self.rapid_commands().push(light_first_control(self.pending))
    }

    /// What brings the dirty cells up to date: nothing where there are
    /// none, one lighting each for up to forty of them, a sweep for more.
    pub open spec fn repaint_commands(self) -> Seq<Command> {
        if self.changes().len() == 0 {
            Seq::empty()
        } else if self.changes().len() <= DIRECT_LIMIT {
            self.direct_commands()
        } else {
            self.sweep_commands()
        }
    }

    /// The commands of a flush, in the order in which they are sent.
    pub open spec fn plan(self) -> Seq<Command> {
        self.reset_commands() + self.repaint_commands()
    }
}

/// The lighting of the first control button in the color that `grid` has
/// for it.
pub open spec fn light_first_control(grid: Seq<Color>) -> Command {
    Command::Light { button: Button::ControlButton { index: 0 }, color: grid[0] }
}

impl CanvasView {
    /// Whether `place` is among the first `count` entries of `places`.
    pub open spec fn listed(places: Seq<int>, count: int, place: int) -> bool {
        exists|j: int| 0 <= j < count && #[trigger] places[j] == place
    }

    /// The canvas once a sweep that the device was left in is over.
    pub open spec fn rested(self) -> CanvasView {
        CanvasView { mode: DeviceDisplayMode::Normal, cursor: 0, ..self }
    }
}

} // verus!
