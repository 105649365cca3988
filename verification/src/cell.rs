//! The state of a single cell, and conversions from states to plain values.

use vstd::prelude::*;

verus! {

/// The state of a cell: either dead or alive.
///
/// A cell has no concept of its neighbours; everything in terms of
/// space is handled by the grid.
#[derive(Copy, Clone, Debug, PartialEq, Eq, Structural)]
pub enum CellState {
    /// represents a dead cell
    Dead,
    /// represents a living cell
    Alive,
}

impl CellState {
    /// The numeric value of a state when it is read as one bit:
    /// a dead cell is 0, an alive one is 1.
    pub open spec fn bit(self) -> int {
        if self == CellState::Alive {
            1
        } else {
            0
        }
    }

    /// A binary cell state as a boolean value, where true means
    /// 'alive' (the cell is there) and false means 'dead' (no cell).
    pub fn into_bool(self) -> (alive: bool)
        ensures
            alive == (self == CellState::Alive),
    {
        match self {
            CellState::Dead => false,
            CellState::Alive => true,
        }
    }
}

/// The value of eight binary cell states read as one octet, with the
/// first state in the most significant bit.
pub open spec fn cs8_value(states: Seq<CellState>) -> int
    recommends
        states.len() == 8,
{
    128 * states[0].bit() + 64 * states[1].bit() + 32 * states[2].bit() + 16 * states[3].bit()
        + 8 * states[4].bit() + 4 * states[5].bit() + 2 * states[6].bit() + states[7].bit()
}

/// Convert eight binary cell states into a u8 / octet.
/// A dead cell becomes a 0 bit, an alive one a 1; the first state
/// lands in the most significant bit.
pub fn cs8_into_u8(cs: [CellState; 8]) -> (octet: u8)
    ensures
        octet as int == cs8_value(cs@),
{
    let b0: u8 = if cs[0].into_bool() { 1 } else { 0 };
    let b1: u8 = if cs[1].into_bool() { 1 } else { 0 };
    let b2: u8 = if cs[2].into_bool() { 1 } else { 0 };
    let b3: u8 = if cs[3].into_bool() { 1 } else { 0 };
    let b4: u8 = if cs[4].into_bool() { 1 } else { 0 };
    let b5: u8 = if cs[5].into_bool() { 1 } else { 0 };
    let b6: u8 = if cs[6].into_bool() { 1 } else { 0 };
    let b7: u8 = if cs[7].into_bool() { 1 } else { 0 };
    128 * b0 + 64 * b1 + 32 * b2 + 16 * b3 + 8 * b4 + 4 * b5 + 2 * b6 + b7
}

} // verus!
