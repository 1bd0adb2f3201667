//! Angular velocity mode: the standard edge decoder with an estimate of
//! how fast the knob spins.
use vstd::prelude::*;

use crate::standard::{edge_direction, last_two, shifted, StandardMode};
use crate::velocity::{
    after_decay, after_step, initial_velocity, Velocity, VelocityEstimator, VelocityView,
};
use crate::{Direction, RotaryEncoder, UNIT};

verus! {

/// Angular velocity mode.
///
/// Decodes steps as standard mode does, and keeps a velocity estimate
/// that each detected step updates.
pub struct AngularVelocityMode {
    decoder: StandardMode,
    estimator: VelocityEstimator,
}

impl View for AngularVelocityMode {
    type V = VelocityView;

    closed spec fn view(&self) -> VelocityView {
        self.estimator@
    }
}

impl AngularVelocityMode {
    /// The edge decoder.
    pub closed spec fn decoder(&self) -> StandardMode {
        self.decoder
    }

    /// Creates the mode at rest, with the default settings.
    pub fn new() -> (r: Self)
        ensures
            r.decoder().dt_history() == 0xFF,
            r.decoder().clk_history() == 2,
            r@ == initial_velocity(),
    {
        AngularVelocityMode { decoder: StandardMode::new(), estimator: VelocityEstimator::new() }
    }

    /// Feeds one sample of the lines, taken at `current_time_millis`, and
    /// returns the direction it shows; a detected step updates the velocity.
    pub fn update(&mut self, dt_value: bool, clk_value: bool, current_time_millis: u64) -> (r:
        Direction)
        ensures
            final(self).decoder().dt_history() == shifted(old(self).decoder().dt_history(), dt_value),
            final(self).decoder().clk_history() == shifted(
                old(self).decoder().clk_history(),
                clk_value,
            ),
            r == edge_direction(
                last_two(final(self).decoder().dt_history()),
                last_two(final(self).decoder().clk_history()),
            ),
            final(self)@ == if r == Direction::Idle {
                old(self)@
            } else {
                after_step(old(self)@, current_time_millis)
            },
    {
        let dir = self.decoder.update(dt_value, clk_value);
        if dir != Direction::Idle {
            self.estimator.record_step(current_time_millis);
        }
        dir
    }

    /// Lowers the velocity by the decrease, down to 0. Meant to be called
    /// periodically, from a timer or the main loop.
    pub fn decay_velocity(&mut self)
        ensures
            final(self)@ == after_decay(old(self)@),
            final(self).decoder() == old(self).decoder(),
    {
        self.estimator.decay();
    }

    /// The current velocity, from 0 to `UNIT`.
    pub fn velocity(&self) -> (r: Velocity)
        ensures
            r == self@.velocity,
            r <= UNIT,
    {
        self.estimator.velocity()
    }

    /// Sets how much a quick step raises the velocity, in millionths.
    pub fn set_velocity_inc_factor(&mut self, inc_factor: u32)
        ensures
            final(self)@ == (VelocityView { velocity_inc_factor: inc_factor, ..old(self)@ }),
            final(self).decoder() == old(self).decoder(),
    {
        self.estimator.set_inc_factor(inc_factor);
    }

    /// Sets how much a decay call lowers the velocity, in millionths.
    pub fn set_velocity_dec_factor(&mut self, dec_factor: u32)
        ensures
            final(self)@ == (VelocityView { velocity_dec_factor: dec_factor, ..old(self)@ }),
            final(self).decoder() == old(self).decoder(),
    {
        self.estimator.set_dec_factor(dec_factor);
    }

    /// Sets the window, in milliseconds, within which a step counts as quick.
    pub fn set_velocity_action_ms(&mut self, action_ms: u64)
        ensures
            final(self)@ == (VelocityView { velocity_action_ms: action_ms, ..old(self)@ }),
            final(self).decoder() == old(self).decoder(),
    {
        self.estimator.set_action_ms(action_ms);
    }
}

impl<DT, CLK> RotaryEncoder<AngularVelocityMode, DT, CLK> {
    /// Sets how much a quick step raises the velocity, in millionths.
    pub fn set_velocity_inc_factor(&mut self, inc_factor: u32)
        ensures
            final(self).mode_state()@ == (VelocityView {
                velocity_inc_factor: inc_factor,
                ..old(self).mode_state()@
            }),
            final(self).mode_state().decoder() == old(self).mode_state().decoder(),
            final(self).last_direction() == old(self).last_direction(),
            final(self).dt_pin() == old(self).dt_pin(),
            final(self).clk_pin() == old(self).clk_pin(),
    {
        self.mode().set_velocity_inc_factor(inc_factor);
    }

    /// Sets how much a decay call lowers the velocity, in millionths.
    pub fn set_velocity_dec_factor(&mut self, dec_factor: u32)
        ensures
            final(self).mode_state()@ == (VelocityView {
                velocity_dec_factor: dec_factor,
                ..old(self).mode_state()@
            }),
            final(self).mode_state().decoder() == old(self).mode_state().decoder(),
            final(self).last_direction() == old(self).last_direction(),
            final(self).dt_pin() == old(self).dt_pin(),
            final(self).clk_pin() == old(self).clk_pin(),
    {
        self.mode().set_velocity_dec_factor(dec_factor);
    }

    /// Sets the window, in milliseconds, within which a step counts as quick.
    pub fn set_velocity_action_ms(&mut self, action_ms: u64)
        ensures
            final(self).mode_state()@ == (VelocityView {
                velocity_action_ms: action_ms,
                ..old(self).mode_state()@
            }),
            final(self).mode_state().decoder() == old(self).mode_state().decoder(),
            final(self).last_direction() == old(self).last_direction(),
            final(self).dt_pin() == old(self).dt_pin(),
            final(self).clk_pin() == old(self).clk_pin(),
    {
        self.mode().set_velocity_action_ms(action_ms);
    }

    /// Lowers the velocity by the decrease, down to 0.
    pub fn decay_velocity(&mut self)
        ensures
            final(self).mode_state()@ == after_decay(old(self).mode_state()@),
            final(self).mode_state().decoder() == old(self).mode_state().decoder(),
            final(self).last_direction() == old(self).last_direction(),
            final(self).dt_pin() == old(self).dt_pin(),
            final(self).clk_pin() == old(self).clk_pin(),
    {
        self.mode().decay_velocity();
    }

    /// Feeds the levels read from the lines at `current_time_millis` to the
    /// mode, records the direction and returns it.
    pub fn update(&mut self, dt_value: bool, clk_value: bool, current_time_millis: u64) -> (r:
        Direction)
        ensures
            final(self).mode_state().decoder().dt_history() == shifted(
                old(self).mode_state().decoder().dt_history(),
                dt_value,
            ),
            final(self).mode_state().decoder().clk_history() == shifted(
                old(self).mode_state().decoder().clk_history(),
                clk_value,
            ),
            r == edge_direction(
                last_two(final(self).mode_state().decoder().dt_history()),
                last_two(final(self).mode_state().decoder().clk_history()),
            ),
            final(self).mode_state()@ == if r == Direction::Idle {
                old(self).mode_state()@
            } else {
                after_step(old(self).mode_state()@, current_time_millis)
            },
            final(self).last_direction() == r,
            final(self).dt_pin() == old(self).dt_pin(),
            final(self).clk_pin() == old(self).clk_pin(),
    {
        let r = self.mode().update(dt_value, clk_value, current_time_millis);
        self.record(r);
        r
    }

    /// The current velocity, from 0 to `UNIT`.
    pub fn velocity(&self) -> (r: Velocity)
        ensures
            r == self.mode_state()@.velocity,
            r <= UNIT,
    {
        self.mode_ref().velocity()
    }
}

impl<MODE, DT, CLK> RotaryEncoder<MODE, DT, CLK> {
    /// Moves the session to angular velocity mode, with the default settings.
    pub fn into_angular_velocity_mode(self) -> (r: RotaryEncoder<AngularVelocityMode, DT, CLK>)
        ensures
            r.mode_state().decoder().dt_history() == 0xFF,
            r.mode_state().decoder().clk_history() == 2,
            r.mode_state()@ == initial_velocity(),
            r.dt_pin() == self.dt_pin(),
            r.clk_pin() == self.clk_pin(),
            r.last_direction() == Direction::Idle,
    {
        self.with_mode(AngularVelocityMode::new())
    }
}

} // verus!
