//! Where the grid buttons sit among the note numbers.
use vstd::prelude::*;

verus! {

/// Whether the grid has a button in column `x` of row `y`. Column 8 holds
/// the round buttons to the right of the square ones.
pub open spec fn spec_is_valid(x: u8, y: u8) -> bool {
    x <= 8 && y <= 7
}

/// The note of the grid button at `(x, y)`.
pub open spec fn spec_grid_to_wire(x: u8, y: u8) -> Option<u8> {
    if spec_is_valid(x, y) {
        Some((y * 16 + x) as u8)
    } else {
        None
    }
}

/// The grid button that a note stands for, as `(x, y)`.
pub open spec fn spec_wire_to_grid(wire: u8) -> Option<(u8, u8)> {
    if wire % 16 <= 8 && wire / 16 <= 7 {
        Some(((wire % 16) as u8, (wire / 16) as u8))
    } else {
        None
    }
}

/// Tells whether the grid has a button in column `x` of row `y`.
#[verifier::when_used_as_spec(spec_is_valid)]
pub fn is_valid(x: u8, y: u8) -> (valid: bool)
    ensures
        valid == spec_is_valid(x, y),
{
    x <= 8 && y <= 7
}

/// The note of the grid button at `(x, y)`, or `None` where the grid has no
/// such button.
#[verifier::when_used_as_spec(spec_grid_to_wire)]
pub fn grid_to_wire(x: u8, y: u8) -> (wire: Option<u8>)
    ensures
        wire == spec_grid_to_wire(x, y),
{
    if is_valid(x, y) {
        Some(y * 16 + x)
    } else {
        None
    }
}

/// The position of the grid button that `wire` is the note of, or `None`
/// where it is the note of none.
#[verifier::when_used_as_spec(spec_wire_to_grid)]
pub fn wire_to_grid(wire: u8) -> (position: Option<(u8, u8)>)
    ensures
        position == spec_wire_to_grid(wire),
{
    let x = wire % 16;
    let y = wire / 16;
    if x <= 8 && y <= 7 {
        Some((x, y))
    } else {
        None
    }
}

/// Every button of the grid has a note, that note leads back to the button,
/// and a position outside the grid has no note.
pub proof fn lemma_grid_wire_grid(x: u8, y: u8)
    ensures
        spec_is_valid(x, y) ==> (spec_grid_to_wire(x, y) matches Some(wire) && spec_wire_to_grid(
            wire,
        ) == Some((x, y))),
        !spec_is_valid(x, y) ==> spec_grid_to_wire(x, y) is None,
{
}

/// Every note that stands for a button stands for a button of the grid,
/// whose note it is: no two notes share a button.
pub proof fn lemma_wire_grid_wire(wire: u8)
    ensures
        spec_wire_to_grid(wire) matches Some((x, y)) ==> (spec_is_valid(x, y) && spec_grid_to_wire(
            x,
            y,
        ) == Some(wire)),
{
}

} // verus!
