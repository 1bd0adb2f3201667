//! The full-step table: it reports a step only when a whole quadrature
//! cycle, from rest (both lines high) back to rest, has been seen in order.
use vstd::prelude::*;

use super::{row, row_of, DIR_CCW, DIR_CW, R_START};

verus! {

/// Row: the cycle has reached its last position before rest, clockwise.
pub const F_CW_FINAL: u8 = 0x01;
/// Row: a clockwise cycle has begun.
pub const F_CW_BEGIN: u8 = 0x02;
/// Row: a clockwise cycle is half done.
pub const F_CW_NEXT: u8 = 0x03;
/// Row: an anti-clockwise cycle has begun.
pub const F_CCW_BEGIN: u8 = 0x04;
/// Row: the cycle has reached its last position before rest, anti-clockwise.
pub const F_CCW_FINAL: u8 = 0x05;
/// Row: an anti-clockwise cycle is half done.
pub const F_CCW_NEXT: u8 = 0x06;

/// The next state for a row and a column (see `pin_index`). A completed
/// step adds its direction flag to the start row. Rows outside the table
/// fall back to the start row.
pub open spec fn full_step_table(row: u8, pins: u8) -> u8 {
    match (row, pins) {
        (R_START, 0) => R_START,
        (R_START, 1) => F_CW_BEGIN,
        (R_START, 2) => F_CCW_BEGIN,
        (F_CW_FINAL, 0) => F_CW_NEXT,
        (F_CW_FINAL, 2) => F_CW_FINAL,
        (F_CW_FINAL, 3) => (R_START + DIR_CW) as u8,
        (F_CW_BEGIN, 0) => F_CW_NEXT,
        (F_CW_BEGIN, 1) => F_CW_BEGIN,
        (F_CW_NEXT, 0) => F_CW_NEXT,
        (F_CW_NEXT, 1) => F_CW_BEGIN,
        (F_CW_NEXT, 2) => F_CW_FINAL,
        (F_CCW_BEGIN, 0) => F_CCW_NEXT,
        (F_CCW_BEGIN, 2) => F_CCW_BEGIN,
        (F_CCW_FINAL, 0) => F_CCW_NEXT,
        (F_CCW_FINAL, 1) => F_CCW_FINAL,
        (F_CCW_FINAL, 3) => (R_START + DIR_CCW) as u8,
        (F_CCW_NEXT, 0) => F_CCW_NEXT,
        (F_CCW_NEXT, 1) => F_CCW_FINAL,
        (F_CCW_NEXT, 2) => F_CCW_BEGIN,
        _ => R_START,
    }
}

/// Looks up the state that follows `state` when the lines show column `pins`.
pub fn full_step_next(state: u8, pins: u8) -> (r: u8)
    ensures
        r == full_step_table(row_of(state), pins),
{
    match (row(state), pins) {
        (R_START, 0) => R_START,
        (R_START, 1) => F_CW_BEGIN,
        (R_START, 2) => F_CCW_BEGIN,
        (F_CW_FINAL, 0) => F_CW_NEXT,
        (F_CW_FINAL, 2) => F_CW_FINAL,
        (F_CW_FINAL, 3) => R_START + DIR_CW,
        (F_CW_BEGIN, 0) => F_CW_NEXT,
        (F_CW_BEGIN, 1) => F_CW_BEGIN,
        (F_CW_NEXT, 0) => F_CW_NEXT,
        (F_CW_NEXT, 1) => F_CW_BEGIN,
        (F_CW_NEXT, 2) => F_CW_FINAL,
        (F_CCW_BEGIN, 0) => F_CCW_NEXT,
        (F_CCW_BEGIN, 2) => F_CCW_BEGIN,
        (F_CCW_FINAL, 0) => F_CCW_NEXT,
        (F_CCW_FINAL, 1) => F_CCW_FINAL,
        (F_CCW_FINAL, 3) => R_START + DIR_CCW,
        (F_CCW_NEXT, 0) => F_CCW_NEXT,
        (F_CCW_NEXT, 1) => F_CCW_FINAL,
        (F_CCW_NEXT, 2) => F_CCW_BEGIN,
        _ => R_START,
    }
}

} // verus!
