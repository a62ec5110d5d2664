//! What the models have in common on the wire.
use vstd::prelude::*;

pub mod query;
pub mod sysex;

verus! {

/// A button of a controller with eighty buttons: the eight round buttons
/// above the grid, and the nine columns of the grid, of which the last holds
/// the round buttons to its right.
#[derive(Debug, Clone, Copy, PartialEq, Eq, Hash, Structural)]
pub enum Button80 {
    ControlButton { index: u8 },
    GridButton { x: u8, y: u8 },
}

impl Button80 {
    /// Whether the controller has this button.
    pub open spec fn spec_is_valid(&self) -> bool {
        match self {
            Button80::ControlButton { index } => index <= 7,
            Button80::GridButton { x, y } => x <= 8 && y <= 7,
        }
    }

    /// The button at a position of the nine by nine square in which row 0
    /// holds the control buttons and rows 1 to 8 the grid.
    pub open spec fn spec_from_abs(x: u8, y: u8) -> Option<Button80> {
        if y == 0 && x <= 7 {
            Some(Button80::ControlButton { index: x })
        } else if 1 <= y <= 8 && x <= 8 {
            Some(Button80::GridButton { x, y: (y - 1) as u8 })
        } else {
            None
        }
    }

    /// The column of the square that the button is in.
    pub open spec fn spec_abs_x(self) -> int {
        match self {
            Button80::ControlButton { index } => index as int,
            Button80::GridButton { x, .. } => x as int,
        }
    }

    /// The row of the square that the button is in.
    pub open spec fn spec_abs_y(self) -> int {
        match self {
            Button80::ControlButton { .. } => 0,
            Button80::GridButton { y, .. } => y + 1,
        }
    }

    /// Whether the row of the square that the button is in can be told in
    /// a byte.
    pub open spec fn row_fits(self) -> bool {
        self matches Button80::GridButton { y, .. } ==> y < u8::MAX
    }

    /// Tells whether the controller has this button.
    #[verifier::when_used_as_spec(spec_is_valid)]
    pub fn is_valid(&self) -> (valid: bool)
        ensures
            valid == self.spec_is_valid(),
    {
        match self {
            Button80::ControlButton { index } => *index <= 7,
            Button80::GridButton { x, y } => *x <= 8 && *y <= 7,
        }
    }

    /// The button at column `x` and row `y` of the square, if there is one.
    pub fn from_abs(x: u8, y: u8) -> (button: Option<Button80>)
        ensures
            button == Self::spec_from_abs(x, y),
    {
        if y == 0 && x <= 7 {
            Some(Button80::ControlButton { index: x })
        } else if 1 <= y && y <= 8 && x <= 8 {
            Some(Button80::GridButton { x, y: y - 1 })
        } else {
            None
        }
    }

    /// The column of the square that the button is in.
    pub fn abs_x(&self) -> (x: u8)
        ensures
            x == self.spec_abs_x(),
    {
        match self {
            Button80::ControlButton { index } => *index,
            Button80::GridButton { x, .. } => *x,
        }
    }

    /// The row of the square that the button is in.
    pub fn abs_y(&self) -> (y: u8)
        requires
            self.row_fits(),
        ensures
            y == self.spec_abs_y(),
    {
        match self {
            Button80::ControlButton { .. } => 0,
            Button80::GridButton { y, .. } => *y + 1,
        }
    }

    /// A position of the square names the button that reports that position,
    /// and no position outside it names a button.
    pub proof fn lemma_abs_round_trip(x: u8, y: u8)
        ensures
            Self::spec_from_abs(x, y) matches Some(button) ==> (button.is_valid()
                && button.spec_abs_x() == x && button.spec_abs_y() == y),
            Self::spec_from_abs(x, y) is Some <==> x <= 8 && y <= 8 && !(x == 8 && y == 0),
    {
    }

    /// A button that the controller has is found again at its own position.
    pub proof fn lemma_from_abs_of_abs(button: Button80)
        requires
            button.is_valid(),
        ensures
            Self::spec_from_abs(button.spec_abs_x() as u8, button.spec_abs_y() as u8) == Some(
                button,
            ),
    {
    }
}

/// The first number of the controller-change band of the control buttons.
pub const CONTROL_BAND_START: u8 = 104;

/// The last number of the controller-change band of the control buttons.
pub const CONTROL_BAND_END: u8 = 111;

/// In a template, the mark of a place where any byte may stand.
pub const ANY: u16 = 256;

/// Whether `data` fits `template`: the two are of one length, and wherever
/// the template holds a byte rather than [`ANY`], `data` holds that byte.
pub open spec fn fits(data: Seq<u8>, template: Seq<u16>) -> bool {
    &&& data.len() == template.len()
    &&& forall|i: int|
        0 <= i < template.len() ==> #[trigger] template[i] == ANY || template[i] == data[i]
}

/// Tells whether `data` fits `template`.
pub fn fits_template(data: &[u8], template: &[u16]) -> (matched: bool)
    ensures
        matched == fits(data@, template@),
{
    if data.len() != template.len() {
        return false;
    }
    let mut i: usize = 0;
    while i < template.len()
        invariant
            data@.len() == template@.len(),
            i <= template@.len(),
            forall|j: int|
                0 <= j < i ==> #[trigger] template@[j] == ANY || template@[j] == data@[j],
        decreases template@.len() - i,
    {
        if template[i] != ANY && template[i] != data[i] as u16 {
            return false;
        }
        i += 1;
    }
    true
}

/// The number that two bytes spell, the first being the more significant.
pub open spec fn spec_be_u16(high: u8, low: u8) -> int {
    high * 256 + low
}

/// Joins two bytes, the first being the more significant.
pub fn be_u16(high: u8, low: u8) -> (value: u16)
    ensures
        value == spec_be_u16(high, low),
{
    (high as u16) * 256 + (low as u16)
}

} // verus!
