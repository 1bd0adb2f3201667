//! State tables shared by the table-driven strategies.
//!
//! A table state is a byte: its low nibble names the position in the table,
//! and bits 4 and 5 flag a completed clockwise or anti-clockwise step.
use vstd::prelude::*;

use crate::Direction;

pub mod full;
pub mod half;

verus! {

/// Flag set in the next state when a clockwise step completes.
pub const DIR_CW: u8 = 0x10;
/// Flag set in the next state when an anti-clockwise step completes.
pub const DIR_CCW: u8 = 0x20;
/// The bits of a state that name the table row.
pub const ROW_MASK: u8 = 0x0F;
/// The bits of a state that flag a completed step.
pub const DIR_MASK: u8 = 0x30;
/// The start row of both tables.
pub const R_START: u8 = 0x00;

/// The table column for a pair of line levels: DT in bit 1, CLK in bit 0.
pub open spec fn spec_pin_index(dt: bool, clk: bool) -> u8 {
    ((if dt { 2u8 } else { 0u8 }) + (if clk { 1u8 } else { 0u8 })) as u8
}

/// The table row that a state names (its low nibble).
pub open spec fn row_of(state: u8) -> u8 {
    (state % 16) as u8
}

/// The direction that a state flags.
pub open spec fn flagged_direction(state: u8) -> Direction {
    if (state / 16) % 4 == 1 {
        Direction::Clockwise
    } else if (state / 16) % 4 == 2 {
        Direction::Anticlockwise
    } else {
        Direction::Idle
    }
}

/// Computes the table column for a pair of line levels.
pub fn pin_index(dt: bool, clk: bool) -> (r: u8)
    ensures
        r == spec_pin_index(dt, clk),
        r < 4,
{
    let high: u8 = if dt { 2 } else { 0 };
    let low: u8 = if clk { 1 } else { 0 };
    high + low
}

/// Computes the table row that a state names.
pub fn row(state: u8) -> (r: u8)
    ensures
        r == row_of(state),
{
    assert(state & ROW_MASK == state % 16) by (bit_vector);
    state & ROW_MASK
}

/// Reads the direction that a state flags.
pub fn direction_of(state: u8) -> (r: Direction)
    ensures
        r == flagged_direction(state),
{
    let flags = state & DIR_MASK;
    assert(state & DIR_MASK == ((state / 16) % 4) * 16) by (bit_vector);
    if flags == DIR_CW {
        Direction::Clockwise
    } else if flags == DIR_CCW {
        Direction::Anticlockwise
    } else {
        Direction::Idle
    }
}

} // verus!
