//! Debounced mode: half steps, accepted only after a quiet period that
//! shrinks as the knob spins faster.
use vstd::prelude::*;

use crate::table::half::{half_step_next, half_step_table};
use crate::table::{direction_of, flagged_direction, pin_index, row_of, spec_pin_index, R_START};
use crate::{elapsed, idle_reports, there_and_back, Direction, RotaryEncoder, UNIT};

verus! {

/// Default decay factor: a full decay fades in half a second.
pub const DEFAULT_DECAY_FACTOR: u32 = 2_000_000;
/// Default debounce duration in milliseconds.
pub const DEFAULT_DEBOUNCE_DURATION_MILLIS: u16 = 60;
/// Default decay increment per accepted step.
pub const DEFAULT_DECAY_INCREMENT: u32 = 200_000;

/// What a debounced mode holds.
pub struct DebouncedView {
    /// The half-step table state.
    pub table_state: u8,
    /// When the last direction was accepted, in milliseconds.
    pub last_update_millis: u64,
    /// The quiet period with no decay, in milliseconds.
    pub debounce_duration_millis: u16,
    /// How much of the quiet period is waived, in millionths.
    pub decay: u32,
    /// How fast the decay fades, in millionths per second.
    pub decay_factor: u32,
    /// How much each accepted step adds to the decay, in millionths.
    pub decay_increment: u32,
}

impl DebouncedView {
    /// The decay is at most 1.
    pub open spec fn wf(self) -> bool {
        self.decay <= UNIT
    }
}

/// The quiet period in milliseconds for a duration and a decay: the
/// duration less the decayed share of it, rounded in favour of the wait.
pub open spec fn quiet_window(duration: u16, decay: u32) -> int {
    duration - (duration * decay) / (UNIT as int)
}

/// One sample at time `now`: the next state and the direction accepted.
/// A half step found by the table is accepted only when more than the
/// quiet period has passed since the last accepted one; it then raises the
/// decay and sends the table back to its start row.
pub open spec fn debounce_step(v: DebouncedView, dt: bool, clk: bool, now: u64) -> (
    DebouncedView,
    Direction,
) {
    let next = half_step_table(row_of(v.table_state), spec_pin_index(dt, clk));
    let found = flagged_direction(next);
    if found != Direction::Idle && elapsed(now, v.last_update_millis) > quiet_window(
        v.debounce_duration_millis,
        v.decay,
    ) {
        let raised = if v.decay + v.decay_increment > UNIT {
            UNIT
        } else {
            (v.decay + v.decay_increment) as u32
        };
        (
            DebouncedView {
                table_state: R_START,
                last_update_millis: now,
                decay: raised,
                ..v
            },
            found,
        )
    } else {
        (DebouncedView { table_state: next, ..v }, Direction::Idle)
    }
}

/// The decay after `elapsed_millis` milliseconds: lowered by the decay
/// factor times the elapsed time, and not below zero.
pub open spec fn faded(v: DebouncedView, elapsed_millis: u32) -> u32 {
    let drop = (v.decay_factor * elapsed_millis) / 1000;
    if drop >= v.decay {
        0
    } else {
        (v.decay - drop) as u32
    }
}

/// The state after a run of timed samples `(dt, clk, millis)`.
pub open spec fn debounce_run(v: DebouncedView, events: Seq<(bool, bool, u64)>) -> DebouncedView
    decreases events.len(),
{
    if events.len() == 0 {
        v
    } else {
        let next = debounce_step(v, events[0].0, events[0].1, events[0].2);
        debounce_run(next.0, events.drop_first())
    }
}

/// The directions accepted along a run of timed samples, one per sample.
pub open spec fn debounce_reports(v: DebouncedView, events: Seq<(bool, bool, u64)>) -> Seq<
    Direction,
>
    decreases events.len(),
{
    if events.len() == 0 {
        Seq::empty()
    } else {
        let next = debounce_step(v, events[0].0, events[0].1, events[0].2);
        seq![next.1] + debounce_reports(next.0, events.drop_first())
    }
}

/// Samples paired with the times they were taken at.
pub open spec fn timed(samples: Seq<(bool, bool)>, times: Seq<u64>) -> Seq<(bool, bool, u64)> {
    Seq::new(samples.len(), |i: int| (samples[i].0, samples[i].1, times[i]))
}

/// The quiet period lies between zero and the duration.
proof fn lemma_quiet_window_bounds(duration: u16, decay: u32)
    requires
        decay <= UNIT,
    ensures
        0 <= quiet_window(duration, decay) <= duration,
{
    let d = duration as int;
    let e = decay as int;
    assert(0 <= (d * e) / 1_000_000 <= d) by (nonlinear_arith)
        requires
            0 <= e <= 1_000_000,
            0 <= d,
    ;
}

/// No direction is accepted within the quiet period that follows the last
/// accepted one, however many half steps the table finds in it.
pub proof fn debounce_quiet_window(v: DebouncedView, events: Seq<(bool, bool, u64)>)
    requires
        v.wf(),
        forall|i: int|
            0 <= i < events.len() ==> events[i].2 <= v.last_update_millis + quiet_window(
                v.debounce_duration_millis,
                v.decay,
            ),
    ensures
        debounce_reports(v, events) == idle_reports(events.len()),
        debounce_run(v, events).last_update_millis == v.last_update_millis,
        debounce_run(v, events).decay == v.decay,
    decreases events.len(),
{
    if events.len() == 0 {
        assert(debounce_reports(v, events) =~= idle_reports(0));
    } else {
        let next = debounce_step(v, events[0].0, events[0].1, events[0].2);
        let rest = events.drop_first();
        lemma_quiet_window_bounds(v.debounce_duration_millis, v.decay);
        assert(elapsed(events[0].2, v.last_update_millis) <= quiet_window(
            v.debounce_duration_millis,
            v.decay,
        ));
        assert forall|i: int| 0 <= i < rest.len() implies rest[i].2 <= next.0.last_update_millis
            + quiet_window(next.0.debounce_duration_millis, next.0.decay) by {
            assert(rest[i] == events[i + 1]);
        }
        debounce_quiet_window(next.0, rest);
        assert(debounce_reports(v, events) =~= idle_reports(events.len()));
    }
}

/// The decay stays between 0 and 1: a sample keeps it there, and leaves it
/// as it was unless a direction is accepted; a tick can only lower it.
pub proof fn debounce_decay_bounded(
    v: DebouncedView,
    dt: bool,
    clk: bool,
    now: u64,
    elapsed_millis: u32,
)
    requires
        v.wf(),
    ensures
        debounce_step(v, dt, clk, now).0.wf(),
        debounce_step(v, dt, clk, now).1 == Direction::Idle ==> debounce_step(
            v,
            dt,
            clk,
            now,
        ).0.decay == v.decay,
        faded(v, elapsed_millis) <= v.decay,
{
}

proof fn lemma_run_last(v: DebouncedView, events: Seq<(bool, bool, u64)>)
    requires
        events.len() >= 1,
    ensures
        ({
            let last = events.last();
            debounce_run(v, events) == debounce_step(
                debounce_run(v, events.drop_last()),
                last.0,
                last.1,
                last.2,
            ).0
        }),
    decreases events.len(),
{
    let next = debounce_step(v, events[0].0, events[0].1, events[0].2);
    let rest = events.drop_first();
    if events.len() == 1 {
        assert(events.drop_last() =~= Seq::<(bool, bool, u64)>::empty());
        assert(rest =~= Seq::<(bool, bool, u64)>::empty());
        assert(events.last() == events[0]);
        assert(debounce_run(next.0, rest) == next.0);
        assert(debounce_run(v, events.drop_last()) == v);
    } else {
        lemma_run_last(next.0, rest);
        assert(rest.last() == events.last());
        assert(rest.drop_last() =~= events.drop_last().drop_first());
        assert(events.drop_last()[0] == events[0]);
        assert(debounce_run(v, events.drop_last()) == debounce_run(next.0, rest.drop_last()));
    }
}

/// A walk from rest that goes back through the same positions to rest,
/// at any times, leaves the table in the start row it began in.
pub proof fn debounce_round_trip(v: DebouncedView, forward: Seq<(bool, bool)>, times: Seq<u64>)
    requires
        row_of(v.table_state) == R_START,
        forward.len() >= 1,
        times.len() == there_and_back((true, true), forward).len(),
    ensures
        row_of(
            debounce_run(v, timed(there_and_back((true, true), forward), times)).table_state,
        ) == row_of(v.table_state),
{
    let events = timed(there_and_back((true, true), forward), times);
    lemma_run_last(v, events);
    assert(events.last().0 && events.last().1);
}

/// Computes the quiet period for a duration and a decay.
fn quiet_window_of(duration: u16, decay: u32) -> (r: u64)
    requires
        decay <= UNIT,
    ensures
        r == quiet_window(duration, decay),
{
    let d = duration as u64;
    let e = decay as u64;
    assert(d * e <= d * 1_000_000) by (nonlinear_arith)
        requires
            e <= 1_000_000,
    ;
    assert(d * 1_000_000 <= 65_535 * 1_000_000) by (nonlinear_arith)
        requires
            d <= 65_535,
    ;
    let waived = d * e / (UNIT as u64);
    assert(waived <= d) by (nonlinear_arith)
        requires
            waived == d * e / 1_000_000,
            d * e <= d * 1_000_000,
    ;
    d - waived
}

/// Debounced mode.
///
/// Runs the half-step table, which finds a direction at each of the two
/// rest positions of a cycle, and accepts a found direction only when more
/// than a quiet period has passed since the last accepted one. The quiet
/// period is the debounce duration less a share of it, the decay, which
/// rises with each accepted step and fades with time (see `tick`): the
/// faster the knob spins, the shorter the wait.
pub struct DebouncedMode {
    table_state: u8,
    last_update_millis: u64,
    debounce_duration_millis: u16,
    decay: u32,
    decay_factor: u32,
    decay_increment: u32,
}

impl View for DebouncedMode {
    type V = DebouncedView;

    closed spec fn view(&self) -> DebouncedView {
        DebouncedView {
            table_state: self.table_state,
            last_update_millis: self.last_update_millis,
            debounce_duration_millis: self.debounce_duration_millis,
            decay: self.decay,
            decay_factor: self.decay_factor,
            decay_increment: self.decay_increment,
        }
    }
}

impl DebouncedMode {
    #[verifier::type_invariant]
    spec fn inv(&self) -> bool {
        self.decay <= UNIT
    }

    /// Creates the mode in the start row, with no decay and the default
    /// settings.
    pub fn new() -> (r: Self)
        ensures
            r@ == (DebouncedView {
                table_state: R_START,
                last_update_millis: 0,
                debounce_duration_millis: DEFAULT_DEBOUNCE_DURATION_MILLIS,
                decay: 0,
                decay_factor: DEFAULT_DECAY_FACTOR,
                decay_increment: DEFAULT_DECAY_INCREMENT,
            }),
    {
        DebouncedMode {
            table_state: R_START,
            last_update_millis: 0,
            debounce_duration_millis: DEFAULT_DEBOUNCE_DURATION_MILLIS,
            decay: 0,
            decay_factor: DEFAULT_DECAY_FACTOR,
            decay_increment: DEFAULT_DECAY_INCREMENT,
        }
    }

    /// Feeds one sample of the lines, taken at `millis`, and returns the
    /// direction accepted.
    pub fn update(&mut self, dt_value: bool, clk_value: bool, millis: u64) -> (r: Direction)
        ensures
            (final(self)@, r) == debounce_step(old(self)@, dt_value, clk_value, millis),
    {
        proof {
            use_type_invariant(&*self);
        }
        let next = half_step_next(self.table_state, pin_index(dt_value, clk_value));
        self.table_state = next;
        let found = direction_of(next);
        let window = quiet_window_of(self.debounce_duration_millis, self.decay);
        if found != Direction::Idle && millis.saturating_sub(self.last_update_millis) > window {
            let raised = self.decay as u64 + self.decay_increment as u64;
            self.decay = if raised > UNIT as u64 {
                UNIT
            } else {
                raised as u32
            };
            self.table_state = R_START;
            self.last_update_millis = millis;
            found
        } else {
            Direction::Idle
        }
    }

    /// Lets `elapsed_millis` milliseconds of decay fade. Meant to be called
    /// periodically, with the time since the last call.
    pub fn tick(&mut self, elapsed_millis: u32)
        ensures
            final(self)@ == (DebouncedView { decay: faded(old(self)@, elapsed_millis), ..old(self)@ }),
    {
        proof {
            use_type_invariant(&*self);
        }
        let factor = self.decay_factor as u64;
        let span = elapsed_millis as u64;
        assert(factor * span <= 0xFFFF_FFFF * 0xFFFF_FFFF) by (nonlinear_arith)
            requires
                factor <= 0xFFFF_FFFF,
                span <= 0xFFFF_FFFF,
        ;
        let drop = factor * span / 1000;
        self.decay = if drop >= self.decay as u64 {
            0
        } else {
            self.decay - drop as u32
        };
    }

    /// The current decay, in millionths.
    pub fn decay(&self) -> (r: u32)
        ensures
            r == self@.decay,
            r <= UNIT,
    {
        proof {
            use_type_invariant(self);
        }
        self.decay
    }

    /// The decay factor, in millionths per second.
    pub fn decay_factor(&self) -> (r: u32)
        ensures
            r == self@.decay_factor,
    {
        self.decay_factor
    }

    /// The half-step table state, for diagnostics.
    pub fn table_state(&self) -> (r: u8)
        ensures
            r == self@.table_state,
    {
        self.table_state
    }

    /// Sets how fast the decay fades, in millionths per second.
    pub fn set_decay_factor(&mut self, decay_factor: u32)
        ensures
            final(self)@ == (DebouncedView { decay_factor, ..old(self)@ }),
    {
        proof {
            use_type_invariant(&*self);
        }
        self.decay_factor = decay_factor;
    }

    /// Sets how much each accepted step adds to the decay, in millionths.
    pub fn set_decay_increment(&mut self, decay_increment: u32)
        ensures
            final(self)@ == (DebouncedView { decay_increment, ..old(self)@ }),
    {
        proof {
            use_type_invariant(&*self);
        }
        self.decay_increment = decay_increment;
    }

    /// Sets the quiet period with no decay, in milliseconds.
    pub fn set_debounce_duration_millis(&mut self, debounce_duration_millis: u16)
        ensures
            final(self)@ == (DebouncedView { debounce_duration_millis, ..old(self)@ }),
    {
        proof {
            use_type_invariant(&*self);
        }
        self.debounce_duration_millis = debounce_duration_millis;
    }
}

impl<DT, CLK> RotaryEncoder<DebouncedMode, DT, CLK> {
    /// The current decay, in millionths.
    pub fn get_decay(&self) -> (r: u32)
        ensures
            r == self.mode_state()@.decay,
            r <= UNIT,
    {
        self.mode_ref().decay()
    }

    /// The decay factor, in millionths per second.
    pub fn get_decay_factor(&self) -> (r: u32)
        ensures
            r == self.mode_state()@.decay_factor,
    {
        self.mode_ref().decay_factor()
    }

    /// Sets how fast the decay fades, in millionths per second.
    pub fn set_decay_factor(&mut self, decay_factor: u32)
        ensures
            final(self).mode_state()@ == (DebouncedView {
                decay_factor,
                ..old(self).mode_state()@
            }),
            final(self).last_direction() == old(self).last_direction(),
            final(self).dt_pin() == old(self).dt_pin(),
            final(self).clk_pin() == old(self).clk_pin(),
    {
        self.mode().set_decay_factor(decay_factor);
    }

    /// Sets how much each accepted step adds to the decay, in millionths.
    pub fn set_decay_increment(&mut self, decay_increment: u32)
        ensures
            final(self).mode_state()@ == (DebouncedView {
                decay_increment,
                ..old(self).mode_state()@
            }),
            final(self).last_direction() == old(self).last_direction(),
            final(self).dt_pin() == old(self).dt_pin(),
            final(self).clk_pin() == old(self).clk_pin(),
    {
        self.mode().set_decay_increment(decay_increment);
    }

    /// Sets the quiet period with no decay, in milliseconds.
    pub fn set_debounce_duration_millis(&mut self, debounce_duration_millis: u16)
        ensures
            final(self).mode_state()@ == (DebouncedView {
                debounce_duration_millis,
                ..old(self).mode_state()@
            }),
            final(self).last_direction() == old(self).last_direction(),
            final(self).dt_pin() == old(self).dt_pin(),
            final(self).clk_pin() == old(self).clk_pin(),
    {
        self.mode().set_debounce_duration_millis(debounce_duration_millis);
    }

    /// Lets `elapsed_millis` milliseconds of decay fade. Meant to be called
    /// periodically, with the time since the last call.
    pub fn tick(&mut self, elapsed_millis: u32)
        ensures
            final(self).mode_state()@ == (DebouncedView {
                decay: faded(old(self).mode_state()@, elapsed_millis),
                ..old(self).mode_state()@
            }),
            final(self).last_direction() == old(self).last_direction(),
            final(self).dt_pin() == old(self).dt_pin(),
            final(self).clk_pin() == old(self).clk_pin(),
    {
        self.mode().tick(elapsed_millis);
    }

    /// Feeds the levels read from the lines at `millis` to the mode,
    /// records the direction accepted and returns it.
    pub fn update(&mut self, dt_value: bool, clk_value: bool, millis: u64) -> (r: Direction)
        ensures
            (final(self).mode_state()@, r) == debounce_step(
                old(self).mode_state()@,
                dt_value,
                clk_value,
                millis,
            ),
            final(self).last_direction() == r,
            final(self).dt_pin() == old(self).dt_pin(),
            final(self).clk_pin() == old(self).clk_pin(),
    {
        let r = self.mode().update(dt_value, clk_value, millis);
        self.record(r);
        r
    }
}

impl<MODE, DT, CLK> RotaryEncoder<MODE, DT, CLK> {
    /// Moves the session to debounced mode, with the default settings.
    pub fn into_debounced_mode(self) -> (r: RotaryEncoder<DebouncedMode, DT, CLK>)
        ensures
            r.mode_state()@ == (DebouncedView {
                table_state: R_START,
                last_update_millis: 0,
                debounce_duration_millis: DEFAULT_DEBOUNCE_DURATION_MILLIS,
                decay: 0,
                decay_factor: DEFAULT_DECAY_FACTOR,
                decay_increment: DEFAULT_DECAY_INCREMENT,
            }),
            r.dt_pin() == self.dt_pin(),
            r.clk_pin() == self.clk_pin(),
            r.last_direction() == Direction::Idle,
    {
        self.with_mode(DebouncedMode::new())
    }
}

} // verus!
