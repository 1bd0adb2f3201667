//! A session on the full-step table with a velocity estimate on top.
use vstd::prelude::*;

use crate::full_step::{full_step, FullStepMode};
use crate::table::{flagged_direction, R_START};
use crate::velocity::{
    after_decay, after_step, initial_velocity, Velocity, VelocityEstimator, VelocityView,
};
use crate::{Direction, RotaryEncoder, UNIT};

verus! {

/// A rotary encoder session in full-step mode that also estimates how fast
/// the knob spins.
pub struct RotaryEncoderWithVelocity<DT, CLK> {
    inner: RotaryEncoder<FullStepMode, DT, CLK>,
    estimator: VelocityEstimator,
}

impl<DT, CLK> View for RotaryEncoderWithVelocity<DT, CLK> {
    type V = VelocityView;

    closed spec fn view(&self) -> VelocityView {
        self.estimator@
    }
}

impl<DT, CLK> RotaryEncoderWithVelocity<DT, CLK> {
    /// The full-step session underneath.
    pub closed spec fn inner_state(&self) -> RotaryEncoder<FullStepMode, DT, CLK> {
        self.inner
    }

    /// Creates a session over two line capabilities, in the start row, with
    /// no velocity and the default settings.
    pub fn new(pin_dt: DT, pin_clk: CLK) -> (r: Self)
        ensures
            r.inner_state().mode_state().state() == R_START,
            r.inner_state().dt_pin() == pin_dt,
            r.inner_state().clk_pin() == pin_clk,
            r.inner_state().last_direction() == Direction::Idle,
            r@ == initial_velocity(),
    {
        RotaryEncoderWithVelocity {
            inner: RotaryEncoder::new(pin_dt, pin_clk).into_fullstep_mode(),
            estimator: VelocityEstimator::new(),
        }
    }

    /// Sets how much a quick step raises the velocity, in millionths.
    pub fn set_velocity_inc_factor(&mut self, inc_factor: u32)
        ensures
            final(self)@ == (VelocityView { velocity_inc_factor: inc_factor, ..old(self)@ }),
            final(self).inner_state() == old(self).inner_state(),
    {
        self.estimator.set_inc_factor(inc_factor);
    }

    /// Sets how much a decay call lowers the velocity, in millionths.
    pub fn set_velocity_dec_factor(&mut self, dec_factor: u32)
        ensures
            final(self)@ == (VelocityView { velocity_dec_factor: dec_factor, ..old(self)@ }),
            final(self).inner_state() == old(self).inner_state(),
    {
        self.estimator.set_dec_factor(dec_factor);
    }

    /// Sets the window, in milliseconds, within which a step counts as quick.
    pub fn set_velocity_action_ms(&mut self, action_ms: u64)
        ensures
            final(self)@ == (VelocityView { velocity_action_ms: action_ms, ..old(self)@ }),
            final(self).inner_state() == old(self).inner_state(),
    {
        self.estimator.set_action_ms(action_ms);
    }

    /// Lowers the velocity by the decrease, down to 0. Meant to be called
    /// periodically, from a timer or the main loop.
    pub fn decay_velocity(&mut self)
        ensures
            final(self)@ == after_decay(old(self)@),
            final(self).inner_state() == old(self).inner_state(),
    {
        self.estimator.decay();
    }

    /// Borrows the two line capabilities, for instance to clear a hardware
    /// interrupt flag.
    pub fn borrow_pins(&mut self) -> ((dt, clk): (&mut DT, &mut CLK))
        ensures
            *dt == old(self).inner_state().dt_pin(),
            *clk == old(self).inner_state().clk_pin(),
            final(self).inner_state().dt_pin() == *final(dt),
            final(self).inner_state().clk_pin() == *final(clk),
            final(self).inner_state().mode_state() == old(self).inner_state().mode_state(),
            final(self).inner_state().last_direction() == old(
                self,
            ).inner_state().last_direction(),
            final(self)@ == old(self)@,
    {
        self.inner.pins_mut()
    }

    /// Borrows the full-step session underneath.
    pub fn borrow_inner(&mut self) -> (r: &mut RotaryEncoder<FullStepMode, DT, CLK>)
        ensures
            *r == old(self).inner_state(),
            final(self).inner_state() == *final(r),
            final(self)@ == old(self)@,
    {
        &mut self.inner
    }

    /// Gives the two line capabilities back.
    pub fn release(self) -> (r: (DT, CLK))
        ensures
            r == (self.inner_state().dt_pin(), self.inner_state().clk_pin()),
    {
        self.inner.release()
    }

    /// Feeds the levels read from the lines at `current_time` to the
    /// full-step table, records the direction and returns it; a reported
    /// step updates the velocity.
    pub fn update(&mut self, dt_value: bool, clk_value: bool, current_time: u64) -> (r: Direction)
        ensures
            final(self).inner_state().mode_state().state() == full_step(
                old(self).inner_state().mode_state().state(),
                dt_value,
                clk_value,
            ),
            r == flagged_direction(final(self).inner_state().mode_state().state()),
            final(self).inner_state().last_direction() == r,
            final(self).inner_state().dt_pin() == old(self).inner_state().dt_pin(),
            final(self).inner_state().clk_pin() == old(self).inner_state().clk_pin(),
            final(self)@ == if r == Direction::Idle {
                old(self)@
            } else {
                after_step(old(self)@, current_time)
            },
    {
        let r = self.inner.update(dt_value, clk_value);
        if r != Direction::Idle {
            self.estimator.record_step(current_time);
        }
        r
    }

    /// The last direction reported.
    pub fn direction(&self) -> (r: Direction)
        ensures
            r == self.inner_state().last_direction(),
    {
        self.inner.direction()
    }

    /// The current velocity, from 0 to `UNIT`.
    pub fn velocity(&self) -> (r: Velocity)
        ensures
            r == self@.velocity,
            r <= UNIT,
    {
        self.estimator.velocity()
    }
}

} // verus!
