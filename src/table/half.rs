//! The half-step table: it reports a step at each of the two rest
//! positions of a cycle (both lines low, both lines high).
use vstd::prelude::*;

use super::{row, row_of, DIR_CCW, DIR_CW, R_START};

verus! {

/// Row: an anti-clockwise half cycle has begun from both lines high.
pub const H_CCW_BEGIN: u8 = 0x1;
/// Row: a clockwise half cycle has begun from both lines high.
pub const H_CW_BEGIN: u8 = 0x2;
/// Row: both lines are low (the middle rest position).
pub const H_START_M: u8 = 0x3;
/// Row: a clockwise half cycle has begun from both lines low.
pub const H_CW_BEGIN_M: u8 = 0x4;
/// Row: an anti-clockwise half cycle has begun from both lines low.
pub const H_CCW_BEGIN_M: u8 = 0x5;

/// The next state for a row and a column (see `pin_index`). A completed
/// half step adds its direction flag to the row of the rest position it
/// reached. Rows outside the table fall back to the start row.
pub open spec fn half_step_table(row: u8, pins: u8) -> u8 {
    match (row, pins) {
        (R_START, 0) => H_START_M,
        (R_START, 1) => H_CW_BEGIN,
        (R_START, 2) => H_CCW_BEGIN,
        (H_CCW_BEGIN, 0) => (H_START_M + DIR_CCW) as u8,
        (H_CCW_BEGIN, 2) => H_CCW_BEGIN,
        (H_CW_BEGIN, 0) => (H_START_M + DIR_CW) as u8,
        (H_CW_BEGIN, 1) => H_CW_BEGIN,
        (H_START_M, 0) => H_START_M,
        (H_START_M, 1) => H_CCW_BEGIN_M,
        (H_START_M, 2) => H_CW_BEGIN_M,
        (H_CW_BEGIN_M, 0) => H_START_M,
        (H_CW_BEGIN_M, 1) => H_START_M,
        (H_CW_BEGIN_M, 2) => H_CW_BEGIN_M,
        (H_CW_BEGIN_M, 3) => (R_START + DIR_CW) as u8,
        (H_CCW_BEGIN_M, 0) => H_START_M,
        (H_CCW_BEGIN_M, 1) => H_CCW_BEGIN_M,
        (H_CCW_BEGIN_M, 2) => H_START_M,
        (H_CCW_BEGIN_M, 3) => (R_START + DIR_CCW) as u8,
        _ => R_START,
    }
}

/// Looks up the state that follows `state` when the lines show column `pins`.
pub fn half_step_next(state: u8, pins: u8) -> (r: u8)
    ensures
        r == half_step_table(row_of(state), pins),
{
    match (row(state), pins) {
        (R_START, 0) => H_START_M,
        (R_START, 1) => H_CW_BEGIN,
        (R_START, 2) => H_CCW_BEGIN,
        (H_CCW_BEGIN, 0) => H_START_M + DIR_CCW,
        (H_CCW_BEGIN, 2) => H_CCW_BEGIN,
        (H_CW_BEGIN, 0) => H_START_M + DIR_CW,
        (H_CW_BEGIN, 1) => H_CW_BEGIN,
        (H_START_M, 0) => H_START_M,
        (H_START_M, 1) => H_CCW_BEGIN_M,
        (H_START_M, 2) => H_CW_BEGIN_M,
        (H_CW_BEGIN_M, 0) => H_START_M,
        (H_CW_BEGIN_M, 1) => H_START_M,
        (H_CW_BEGIN_M, 2) => H_CW_BEGIN_M,
        (H_CW_BEGIN_M, 3) => R_START + DIR_CW,
        (H_CCW_BEGIN_M, 0) => H_START_M,
        (H_CCW_BEGIN_M, 1) => H_CCW_BEGIN_M,
        (H_CCW_BEGIN_M, 2) => H_START_M,
        (H_CCW_BEGIN_M, 3) => R_START + DIR_CCW,
        _ => R_START,
    }
}

} // verus!
