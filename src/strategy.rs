//! One closed choice of decoding strategy behind a single entry point.
use vstd::prelude::*;

use crate::debounced::{debounce_step, DebouncedMode};
use crate::full_step::{full_step, FullStepMode};
use crate::quadrature::{quadrature_step, QuadratureTableMode};
use crate::standard::{edge_direction, last_two, shifted, StandardMode};
use crate::table::flagged_direction;
use crate::{Direction, RotaryEncoder};

verus! {

/// The decoding strategy of a session, fixed when the session is made.
pub enum Strategy {
    /// The full-step table: one report per complete cycle.
    FullStep(FullStepMode),
    /// The half-step table behind an adaptive quiet period.
    HalfStepDebounce(DebouncedMode),
    /// The two-sample edge decoder.
    EdgeDecoder(StandardMode),
    /// Signed movements summed up to a threshold.
    ThresholdCounter(QuadratureTableMode),
}

/// Whether `after` is `before` moved on by one sample `(dt, clk)` taken at
/// `millis`, in the same strategy, and `r` is the direction it reports.
pub open spec fn strategy_step(
    before: Strategy,
    after: Strategy,
    dt: bool,
    clk: bool,
    millis: u64,
    r: Direction,
) -> bool {
    match before {
        Strategy::FullStep(m) => {
            &&& after matches Strategy::FullStep(n)
            &&& n.state() == full_step(m.state(), dt, clk)
            &&& r == flagged_direction(n.state())
        },
        Strategy::HalfStepDebounce(m) => {
            &&& after matches Strategy::HalfStepDebounce(n)
            &&& (n@, r) == debounce_step(m@, dt, clk, millis)
        },
        Strategy::EdgeDecoder(m) => {
            &&& after matches Strategy::EdgeDecoder(n)
            &&& n.dt_history() == shifted(m.dt_history(), dt)
            &&& n.clk_history() == shifted(m.clk_history(), clk)
            &&& r == edge_direction(last_two(n.dt_history()), last_two(n.clk_history()))
        },
        Strategy::ThresholdCounter(m) => {
            &&& after matches Strategy::ThresholdCounter(n)
            &&& n.threshold() == m.threshold()
            &&& (n.prev(), n.count(), r) == quadrature_step(
                m.prev(),
                m.count(),
                m.threshold(),
                dt,
                clk,
            )
        },
    }
}

impl Strategy {
    /// Feeds one sample of the lines, taken at `millis`, to the strategy
    /// and returns the direction it reports. Only the debounced strategy
    /// reads the time.
    pub fn update(&mut self, dt: bool, clk: bool, millis: u64) -> (r: Direction)
        ensures
            strategy_step(*old(self), *final(self), dt, clk, millis, r),
    {
        match self {
            Strategy::FullStep(m) => m.update(dt, clk),
            Strategy::HalfStepDebounce(m) => m.update(dt, clk, millis),
            Strategy::EdgeDecoder(m) => m.update(dt, clk),
            Strategy::ThresholdCounter(m) => m.update(dt, clk),
        }
    }
}

impl<DT, CLK> RotaryEncoder<Strategy, DT, CLK> {
    /// Feeds the levels read from the lines at `millis` to the strategy,
    /// records the direction and returns it.
    pub fn update(&mut self, dt: bool, clk: bool, millis: u64) -> (r: Direction)
        ensures
            strategy_step(old(self).mode_state(), final(self).mode_state(), dt, clk, millis, r),
            final(self).last_direction() == r,
            final(self).dt_pin() == old(self).dt_pin(),
            final(self).clk_pin() == old(self).clk_pin(),
    {
        let r = self.mode().update(dt, clk, millis);
        self.record(r);
        r
    }
}

} // verus!
