//! Decoding of the two-line quadrature signal of a rotary encoder into
//! rotation events, with an optional estimate of how fast the knob spins.
//!
//! Each decoding mode is a state machine over the levels of the DT and CLK
//! lines, and, where timing matters, a millisecond timestamp that the
//! caller supplies. The modes are:
//! - `full_step::FullStepMode`: one report per complete cycle;
//! - `debounced::DebouncedMode`: half steps behind an adaptive quiet period;
//! - `standard::StandardMode`: edges read from the last two samples;
//! - `quadrature::QuadratureTableMode`: movements summed up to a threshold;
//! - `angular_velocity::AngularVelocityMode`: standard mode with a velocity
//!   estimate (`velocity::VelocityEstimator`).
//!
//! `RotaryEncoder` holds a mode together with the two line capabilities;
//! `strategy::Strategy` is a closed choice of mode with one entry point.
//! Fractions such as the velocity and the debounce decay are fixed-point
//! values in millionths, `UNIT` standing for 1. Time differences saturate
//! at zero when a timestamp is earlier than the one it is compared with.
use vstd::prelude::*;

pub mod angular;
pub mod angular_velocity;
pub mod debounced;
pub mod full_step;
pub mod quadrature;
pub mod standard;
pub mod strategy;
pub mod table;
pub mod velocity;

verus! {

/// Direction of a rotation event.
#[derive(Clone, Copy, Debug, PartialEq, Eq, Structural)]
pub enum Direction {
    /// No rotation was detected.
    Idle,
    /// Clockwise rotation.
    Clockwise,
    /// Anti-clockwise rotation.
    Anticlockwise,
}

/// The fixed-point value that stands for 1.0 in decay and velocity
/// values, which are kept in millionths.
pub const UNIT: u32 = 1_000_000;

/// Milliseconds from `before` to `now`, or zero if `now` is earlier.
pub open spec fn elapsed(now: u64, before: u64) -> int {
    if now >= before {
        now - before
    } else {
        0
    }
}

/// A rotary encoder session: the two line capabilities, one decoding mode,
/// and the last direction that the mode reported.
///
/// Reading the lines is left to the caller: each mode's `update` takes the
/// levels that were read (a failed read counts as a low level).
pub struct RotaryEncoder<MODE, DT, CLK> {
    mode: MODE,
    pin_dt: DT,
    pin_clk: CLK,
    direction: Direction,
}

impl<MODE, DT, CLK> RotaryEncoder<MODE, DT, CLK> {
    /// The decoding mode.
    pub closed spec fn mode_state(&self) -> MODE {
        self.mode
    }

    /// The DT line capability.
    pub closed spec fn dt_pin(&self) -> DT {
        self.pin_dt
    }

    /// The CLK line capability.
    pub closed spec fn clk_pin(&self) -> CLK {
        self.pin_clk
    }

    /// The last direction reported.
    pub closed spec fn last_direction(&self) -> Direction {
        self.direction
    }

    /// Borrows the two line capabilities, for instance to clear a hardware
    /// interrupt flag.
    pub fn pins_mut(&mut self) -> ((dt, clk): (&mut DT, &mut CLK))
        ensures
            *dt == old(self).dt_pin(),
            *clk == old(self).clk_pin(),
            final(self).dt_pin() == *final(dt),
            final(self).clk_pin() == *final(clk),
            final(self).mode_state() == old(self).mode_state(),
            final(self).last_direction() == old(self).last_direction(),
    {
        (&mut self.pin_dt, &mut self.pin_clk)
    }

    /// Gives the two line capabilities back.
    pub fn release(self) -> (r: (DT, CLK))
        ensures
            r == (self.dt_pin(), self.clk_pin()),
    {
        (self.pin_dt, self.pin_clk)
    }

    /// Borrows the decoding mode.
    pub fn mode(&mut self) -> (r: &mut MODE)
        ensures
            *r == old(self).mode_state(),
            final(self).mode_state() == *final(r),
            final(self).dt_pin() == old(self).dt_pin(),
            final(self).clk_pin() == old(self).clk_pin(),
            final(self).last_direction() == old(self).last_direction(),
    {
        &mut self.mode
    }

    /// Reads the decoding mode.
    pub fn mode_ref(&self) -> (r: &MODE)
        ensures
            *r == self.mode_state(),
    {
        &self.mode
    }

    /// The last direction reported.
    pub fn direction(&self) -> (r: Direction)
        ensures
            r == self.last_direction(),
    {
        self.direction
    }

    /// Moves the line capabilities into a session with another mode.
    pub fn with_mode<NEXT>(self, mode: NEXT) -> (r: RotaryEncoder<NEXT, DT, CLK>)
        ensures
            r.mode_state() == mode,
            r.dt_pin() == self.dt_pin(),
            r.clk_pin() == self.clk_pin(),
            r.last_direction() == Direction::Idle,
    {
        RotaryEncoder { mode, pin_dt: self.pin_dt, pin_clk: self.pin_clk, direction: Direction::Idle }
    }

    /// Records a reported direction.
    fn record(&mut self, direction: Direction)
        ensures
            final(self).last_direction() == direction,
            final(self).mode_state() == old(self).mode_state(),
            final(self).dt_pin() == old(self).dt_pin(),
            final(self).clk_pin() == old(self).clk_pin(),
    {
        self.direction = direction;
    }
}

/// The mode of a session that has not been given a decoding mode yet.
pub struct InitalizeMode;

impl<DT, CLK> RotaryEncoder<InitalizeMode, DT, CLK> {
    /// Creates a session over two line capabilities, with no decoding mode
    /// yet: pick one with one of the `into_*_mode` methods.
    pub fn new(pin_dt: DT, pin_clk: CLK) -> (r: Self)
        ensures
            r.mode_state() == InitalizeMode,
            r.dt_pin() == pin_dt,
            r.clk_pin() == pin_clk,
            r.last_direction() == Direction::Idle,
    {
        RotaryEncoder { mode: InitalizeMode, pin_dt, pin_clk, direction: Direction::Idle }
    }
}

/// `n` copies of one sample of the lines, `(dt, clk)`.
pub open spec fn repeated(sample: (bool, bool), n: nat) -> Seq<(bool, bool)> {
    Seq::new(n, |_i: int| sample)
}

/// `n` reports of no rotation.
pub open spec fn idle_reports(n: nat) -> Seq<Direction> {
    Seq::new(n, |_i: int| Direction::Idle)
}

/// A walk through the samples of `forward`, then back through the same
/// positions in reverse order, ending at `start`, where it began.
pub open spec fn there_and_back(start: (bool, bool), forward: Seq<(bool, bool)>) -> Seq<(bool, bool)> {
    forward + forward.drop_last().reverse() + seq![start]
}

/// The samples of one detent turned from rest (both lines high): `rest`
/// samples at rest, the three positions of the cycle in the order of the
/// turn, held for `a`, `b` and `c` samples, then `d + 1` samples at rest.
pub open spec fn detent(clockwise: bool, rest: nat, a: nat, b: nat, c: nat, d: nat) -> Seq<(bool, bool)> {
    let first = if clockwise { (false, true) } else { (true, false) };
    let third = if clockwise { (true, false) } else { (false, true) };
    repeated((true, true), rest) + repeated(first, a) + repeated((false, false), b)
        + repeated(third, c) + repeated((true, true), d + 1)
}

} // verus!
