//! Standard mode: edges read from a two-sample history of each line.
use vstd::prelude::*;

use crate::{Direction, RotaryEncoder};

verus! {

/// The bits of a line history that hold its last two samples.
pub const PIN_MASK: u8 = 0x03;
/// The window of a line that was high and is now low.
pub const PIN_EDGE: u8 = 0x02;

/// A line history after a new level is shifted in at bit 0.
pub open spec fn shifted(history: u8, level: bool) -> u8 {
    ((history * 2) % 256 + (if level { 1int } else { 0int })) as u8
}

/// The last two samples of a line history: the older in bit 1, the newer
/// in bit 0.
pub open spec fn last_two(history: u8) -> u8 {
    history % 4
}

/// The direction that the last two samples of each line show: a falling
/// edge on one line while the other stays low. DT first gives
/// anti-clockwise, CLK first gives clockwise.
pub open spec fn edge_direction(dt_window: u8, clk_window: u8) -> Direction {
    if dt_window == PIN_EDGE && clk_window == 0 {
        Direction::Anticlockwise
    } else if clk_window == PIN_EDGE && dt_window == 0 {
        Direction::Clockwise
    } else {
        Direction::Idle
    }
}

/// Shifts a level into a line history.
fn shift_in(history: u8, level: bool) -> (r: u8)
    ensures
        r == shifted(history, level),
    no_unwind
{
    let bit: u8 = if level { 1 } else { 0 };
    assert((history << 1u8) | bit == ((history * 2) % 256 + bit) as u8) by (bit_vector)
        requires
            bit < 2,
    ;
    (history << 1) | bit
}

/// Standard mode.
///
/// Keeps a shift history of each line and reports a direction when one
/// line has just fallen while the other was low at both samples. It needs
/// no table and no timing, and is meant to be polled at about 900 Hz.
#[derive(Clone, Copy, Debug, PartialEq, Eq)]
pub struct StandardMode {
    dt_history: u8,
    clk_history: u8,
}

impl StandardMode {
    /// The history of the DT line.
    pub closed spec fn dt_history(&self) -> u8 {
        self.dt_history
    }

    /// The history of the CLK line.
    pub closed spec fn clk_history(&self) -> u8 {
        self.clk_history
    }

    /// Creates the mode with DT last seen high and CLK last seen low.
    pub fn new() -> (r: Self)
        ensures
            r.dt_history() == 0xFF,
            r.clk_history() == 2,
    {
        StandardMode { dt_history: 0xFF, clk_history: 2 }
    }

    /// Feeds one sample of the lines and returns the direction it shows.
    pub fn update(&mut self, dt_value: bool, clk_value: bool) -> (r: Direction)
        ensures
            final(self).dt_history() == shifted(old(self).dt_history(), dt_value),
            final(self).clk_history() == shifted(old(self).clk_history(), clk_value),
            r == edge_direction(
                last_two(final(self).dt_history()),
                last_two(final(self).clk_history()),
            ),
    no_unwind
    {
        self.dt_history = shift_in(self.dt_history, dt_value);
        self.clk_history = shift_in(self.clk_history, clk_value);
        let a = self.dt_history;
        let b = self.clk_history;
        assert(a & PIN_MASK == a % 4) by (bit_vector);
        assert(b & PIN_MASK == b % 4) by (bit_vector);
        let a = a & PIN_MASK;
        let b = b & PIN_MASK;
        if a == PIN_EDGE && b == 0x00 {
            Direction::Anticlockwise
        } else if b == PIN_EDGE && a == 0x00 {
            Direction::Clockwise
        } else {
            Direction::Idle
        }
    }
}

impl Default for StandardMode {
    fn default() -> (r: Self)
        ensures
            r.dt_history() == 0xFF,
            r.clk_history() == 2,
    {
        Self::new()
    }
}

impl<DT, CLK> RotaryEncoder<StandardMode, DT, CLK> {
    /// Feeds the levels read from the lines to the mode, records the
    /// direction and returns it.
    pub fn update(&mut self, dt_value: bool, clk_value: bool) -> (r: Direction)
        ensures
            final(self).mode_state().dt_history() == shifted(
                old(self).mode_state().dt_history(),
                dt_value,
            ),
            final(self).mode_state().clk_history() == shifted(
                old(self).mode_state().clk_history(),
                clk_value,
            ),
            r == edge_direction(
                last_two(final(self).mode_state().dt_history()),
                last_two(final(self).mode_state().clk_history()),
            ),
            final(self).last_direction() == r,
            final(self).dt_pin() == old(self).dt_pin(),
            final(self).clk_pin() == old(self).clk_pin(),
    {
        let r = self.mode().update(dt_value, clk_value);
        self.record(r);
        r
    }
}

impl<MODE, DT, CLK> RotaryEncoder<MODE, DT, CLK> {
    /// Moves the session to standard mode.
    pub fn into_standard_mode(self) -> (r: RotaryEncoder<StandardMode, DT, CLK>)
        ensures
            r.mode_state().dt_history() == 0xFF,
            r.mode_state().clk_history() == 2,
            r.dt_pin() == self.dt_pin(),
            r.clk_pin() == self.clk_pin(),
            r.last_direction() == Direction::Idle,
    {
        self.with_mode(StandardMode::new())
    }
}

} // verus!
