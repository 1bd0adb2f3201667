//! The velocity estimate: a value between 0 and 1 that rises with quick
//! steps and falls with periodic decay calls.
use vstd::prelude::*;

use crate::{elapsed, UNIT};

verus! {

/// Default velocity increase per quick step, in millionths.
pub const DEFAULT_VELOCITY_INC_FACTOR: u32 = 200_000;
/// Default velocity decrease per decay call, in millionths.
pub const DEFAULT_VELOCITY_DEC_FACTOR: u32 = 10_000;
/// Default window, in milliseconds, within which a step counts as quick.
pub const DEFAULT_VELOCITY_ACTION_MS: u64 = 25;

/// A velocity in millionths, from 0 to `UNIT`.
pub type Velocity = u32;

/// What a velocity estimate holds.
pub struct VelocityView {
    /// The velocity, in millionths.
    pub velocity: u32,
    /// The increase per quick step, in millionths.
    pub velocity_inc_factor: u32,
    /// The decrease per decay call, in millionths.
    pub velocity_dec_factor: u32,
    /// The window within which a step counts as quick, in milliseconds.
    pub velocity_action_ms: u64,
    /// When the last step was detected, in milliseconds.
    pub previous_time_millis: u64,
}

impl VelocityView {
    /// The velocity is at most 1.
    pub open spec fn wf(self) -> bool {
        self.velocity <= UNIT
    }
}

/// Whether a step detected at `now` comes within the window of the last one.
pub open spec fn is_quick(v: VelocityView, now: u64) -> bool {
    elapsed(now, v.previous_time_millis) < v.velocity_action_ms
}

/// The estimate after a step detected at `now`: a quick step raises the
/// velocity by the increase, up to 1; any step becomes the last step.
pub open spec fn after_step(v: VelocityView, now: u64) -> VelocityView {
    let raised = if v.velocity + v.velocity_inc_factor > UNIT {
        UNIT
    } else {
        (v.velocity + v.velocity_inc_factor) as u32
    };
    VelocityView {
        velocity: if is_quick(v, now) { raised } else { v.velocity },
        previous_time_millis: now,
        ..v
    }
}

/// The estimate after a decay call: the velocity drops by the decrease,
/// down to 0.
pub open spec fn after_decay(v: VelocityView) -> VelocityView {
    VelocityView {
        velocity: if v.velocity >= v.velocity_dec_factor {
            (v.velocity - v.velocity_dec_factor) as u32
        } else {
            0
        },
        ..v
    }
}

/// The estimate after a run of events: `Some(millis)` for a step detected
/// at `millis`, `None` for a decay call.
pub open spec fn velocity_run(v: VelocityView, events: Seq<Option<u64>>) -> VelocityView
    decreases events.len(),
{
    if events.len() == 0 {
        v
    } else {
        let next = match events[0] {
            Some(now) => after_step(v, now),
            None => after_decay(v),
        };
        velocity_run(next, events.drop_first())
    }
}

/// Whether some step along a run of events is quick.
pub open spec fn has_quick_step(v: VelocityView, events: Seq<Option<u64>>) -> bool
    decreases events.len(),
{
    if events.len() == 0 {
        false
    } else {
        match events[0] {
            Some(now) => is_quick(v, now) || has_quick_step(
                after_step(v, now),
                events.drop_first(),
            ),
            None => has_quick_step(after_decay(v), events.drop_first()),
        }
    }
}

/// The velocity stays between 0 and 1 whatever happens, and without a
/// quick step it never rises: decay calls and slow steps can only lower it.
pub proof fn velocity_bounded_and_cooling(v: VelocityView, events: Seq<Option<u64>>)
    requires
        v.wf(),
    ensures
        velocity_run(v, events).wf(),
        !has_quick_step(v, events) ==> velocity_run(v, events).velocity <= v.velocity,
    decreases events.len(),
{
    if events.len() > 0 {
        let next = match events[0] {
            Some(now) => after_step(v, now),
            None => after_decay(v),
        };
        velocity_bounded_and_cooling(next, events.drop_first());
    }
}

/// A velocity estimate.
///
/// Holds a velocity between 0 and 1, in millionths. A step detected within
/// the action window of the previous one raises it by the increase; each
/// decay call lowers it by the decrease.
pub struct VelocityEstimator {
    velocity: u32,
    velocity_inc_factor: u32,
    velocity_dec_factor: u32,
    velocity_action_ms: u64,
    previous_time_millis: u64,
}

impl View for VelocityEstimator {
    type V = VelocityView;

    closed spec fn view(&self) -> VelocityView {
        VelocityView {
            velocity: self.velocity,
            velocity_inc_factor: self.velocity_inc_factor,
            velocity_dec_factor: self.velocity_dec_factor,
            velocity_action_ms: self.velocity_action_ms,
            previous_time_millis: self.previous_time_millis,
        }
    }
}

/// The estimate that a new estimator holds: no velocity, default settings.
pub open spec fn initial_velocity() -> VelocityView {
    VelocityView {
        velocity: 0,
        velocity_inc_factor: DEFAULT_VELOCITY_INC_FACTOR,
        velocity_dec_factor: DEFAULT_VELOCITY_DEC_FACTOR,
        velocity_action_ms: DEFAULT_VELOCITY_ACTION_MS,
        previous_time_millis: 0,
    }
}

impl VelocityEstimator {
    #[verifier::type_invariant]
    spec fn inv(&self) -> bool {
        self.velocity <= UNIT
    }

    /// Creates an estimate with no velocity and the default settings.
    pub fn new() -> (r: Self)
        ensures
            r@ == initial_velocity(),
    {
        VelocityEstimator {
            velocity: 0,
            velocity_inc_factor: DEFAULT_VELOCITY_INC_FACTOR,
            velocity_dec_factor: DEFAULT_VELOCITY_DEC_FACTOR,
            velocity_action_ms: DEFAULT_VELOCITY_ACTION_MS,
            previous_time_millis: 0,
        }
    }

    /// Takes note of a step detected at `now_millis`.
    pub fn record_step(&mut self, now_millis: u64)
        ensures
            final(self)@ == after_step(old(self)@, now_millis),
    {
        proof {
            use_type_invariant(&*self);
        }
        if now_millis.saturating_sub(self.previous_time_millis) < self.velocity_action_ms {
            let raised = self.velocity as u64 + self.velocity_inc_factor as u64;
            self.velocity = if raised > UNIT as u64 {
                UNIT
            } else {
                raised as u32
            };
        }
        self.previous_time_millis = now_millis;
    }

    /// Lowers the velocity by the decrease, down to 0.
    pub fn decay(&mut self)
        ensures
            final(self)@ == after_decay(old(self)@),
    {
        proof {
            use_type_invariant(&*self);
        }
        self.velocity = self.velocity.saturating_sub(self.velocity_dec_factor);
    }

    /// The current velocity, from 0 to `UNIT`.
    pub fn velocity(&self) -> (r: Velocity)
        ensures
            r == self@.velocity,
            r <= UNIT,
    {
        proof {
            use_type_invariant(self);
        }
        self.velocity
    }

    /// Sets how much a quick step raises the velocity, in millionths.
    pub fn set_inc_factor(&mut self, inc_factor: u32)
        ensures
            final(self)@ == (VelocityView { velocity_inc_factor: inc_factor, ..old(self)@ }),
    {
        proof {
            use_type_invariant(&*self);
        }
        self.velocity_inc_factor = inc_factor;
    }

    /// Sets how much a decay call lowers the velocity, in millionths.
    pub fn set_dec_factor(&mut self, dec_factor: u32)
        ensures
            final(self)@ == (VelocityView { velocity_dec_factor: dec_factor, ..old(self)@ }),
    {
        proof {
            use_type_invariant(&*self);
        }
        self.velocity_dec_factor = dec_factor;
    }

    /// Sets the window, in milliseconds, within which a step counts as quick.
    pub fn set_action_ms(&mut self, action_ms: u64)
        ensures
            final(self)@ == (VelocityView { velocity_action_ms: action_ms, ..old(self)@ }),
    {
        proof {
            use_type_invariant(&*self);
        }
        self.velocity_action_ms = action_ms;
    }
}

} // verus!
