//! Full-step decoding: one report per complete quadrature cycle.
use vstd::prelude::*;

use crate::table::full::{full_step_next, full_step_table};
use crate::table::{direction_of, flagged_direction, pin_index, row_of, spec_pin_index, R_START};
use crate::{detent, idle_reports, repeated, there_and_back, Direction, RotaryEncoder};

verus! {

/// Full-step mode.
///
/// Drives the full-step table: a direction is reported only when the lines
/// have gone through a whole cycle in order, from rest (both lines high)
/// back to rest. Half steps are ignored, and an impossible transition sends
/// the table back to its start row.
pub struct FullStepMode {
    table_state: u8,
}

/// The table state that follows `state` after one sample.
pub open spec fn full_step(state: u8, dt: bool, clk: bool) -> u8 {
    full_step_table(row_of(state), spec_pin_index(dt, clk))
}

/// The table state after a run of samples.
pub open spec fn full_step_run(state: u8, samples: Seq<(bool, bool)>) -> u8
    decreases samples.len(),
{
    if samples.len() == 0 {
        state
    } else {
        full_step_run(full_step(state, samples[0].0, samples[0].1), samples.drop_first())
    }
}

/// The directions reported along a run of samples, one per sample.
pub open spec fn full_step_reports(state: u8, samples: Seq<(bool, bool)>) -> Seq<Direction>
    decreases samples.len(),
{
    if samples.len() == 0 {
        Seq::empty()
    } else {
        let next = full_step(state, samples[0].0, samples[0].1);
        seq![flagged_direction(next)] + full_step_reports(next, samples.drop_first())
    }
}

proof fn lemma_run_append(state: u8, a: Seq<(bool, bool)>, b: Seq<(bool, bool)>)
    ensures
        full_step_run(state, a + b) == full_step_run(full_step_run(state, a), b),
        full_step_reports(state, a + b) == full_step_reports(state, a) + full_step_reports(
            full_step_run(state, a),
            b,
        ),
    decreases a.len(),
{
    if a.len() == 0 {
        assert(a + b =~= b);
        assert(full_step_reports(state, a) + full_step_reports(state, b) =~= full_step_reports(
            state,
            b,
        ));
    } else {
        let next = full_step(state, a[0].0, a[0].1);
        assert((a + b)[0] == a[0]);
        assert((a + b).drop_first() =~= a.drop_first() + b);
        lemma_run_append(next, a.drop_first(), b);
        assert(full_step_reports(state, a + b) =~= full_step_reports(state, a)
            + full_step_reports(full_step_run(state, a), b));
    }
}

/// Holding one sample that the table keeps to after its first step.
proof fn lemma_run_repeated(state: u8, sample: (bool, bool), n: nat)
    requires
        n >= 1,
        full_step(full_step(state, sample.0, sample.1), sample.0, sample.1) == full_step(
            state,
            sample.0,
            sample.1,
        ),
        flagged_direction(full_step(state, sample.0, sample.1)) == Direction::Idle,
    ensures
        full_step_run(state, repeated(sample, n)) == full_step(state, sample.0, sample.1),
        full_step_reports(state, repeated(sample, n)) == idle_reports(n),
    decreases n,
{
    let next = full_step(state, sample.0, sample.1);
    assert(repeated(sample, n)[0] == sample);
    assert(repeated(sample, n).drop_first() =~= repeated(sample, (n - 1) as nat));
    if n == 1 {
        assert(full_step_run(next, repeated(sample, 0)) == next);
        assert(full_step_reports(next, repeated(sample, 0)) =~= Seq::<Direction>::empty());
        assert(full_step_reports(state, repeated(sample, n)) =~= idle_reports(n));
    } else {
        lemma_run_repeated(next, sample, (n - 1) as nat);
        assert(full_step_reports(state, repeated(sample, n)) =~= idle_reports(n));
    }
}

/// One detent turned from rest is reported exactly once, in the sense of
/// the turn, when the lines come back to rest, however long each position
/// of the cycle is held; the table is then back in its start row.
pub proof fn full_step_detent_reports_once(
    state: u8,
    clockwise: bool,
    rest: nat,
    a: nat,
    b: nat,
    c: nat,
    d: nat,
)
    requires
        row_of(state) == R_START,
        a >= 1,
        b >= 1,
        c >= 1,
    ensures
        full_step_reports(state, detent(clockwise, rest, a, b, c, d)) == idle_reports(
            rest + a + b + c,
        ) + seq![if clockwise { Direction::Clockwise } else { Direction::Anticlockwise }]
            + idle_reports(d),
        row_of(full_step_run(state, detent(clockwise, rest, a, b, c, d))) == R_START,
{
    let first = if clockwise { (false, true) } else { (true, false) };
    let third = if clockwise { (true, false) } else { (false, true) };
    let at_rest = (true, true);
    let sa = repeated(at_rest, rest);
    let sb = repeated(first, a);
    let sc = repeated((false, false), b);
    let sd = repeated(third, c);
    let se = repeated(at_rest, d + 1);
    let s1 = full_step_run(state, sa);
    if rest == 0 {
        assert(sa =~= Seq::<(bool, bool)>::empty());
    } else {
        lemma_run_repeated(state, at_rest, rest);
    }
    assert(row_of(s1) == R_START);
    lemma_run_repeated(s1, first, a);
    let s2 = full_step_run(s1, sb);
    lemma_run_repeated(s2, (false, false), b);
    let s3 = full_step_run(s2, sc);
    lemma_run_repeated(s3, third, c);
    let s4 = full_step_run(s3, sd);
    let done = full_step(s4, true, true);
    let dir = if clockwise { Direction::Clockwise } else { Direction::Anticlockwise };
    assert(flagged_direction(done) == dir);
    assert(se =~= seq![at_rest] + repeated(at_rest, d));
    lemma_run_append(s4, seq![at_rest], repeated(at_rest, d));
    assert(seq![at_rest].drop_first() =~= Seq::<(bool, bool)>::empty());
    assert(seq![at_rest][0] == at_rest);
    assert(full_step_run(done, Seq::empty()) == done);
    assert(full_step_reports(done, Seq::empty()) =~= Seq::<Direction>::empty());
    assert(full_step_run(s4, seq![at_rest]) == done);
    assert(full_step_reports(s4, seq![at_rest]) =~= seq![dir]);
    if d >= 1 {
        lemma_run_repeated(done, at_rest, d);
    } else {
        assert(repeated(at_rest, d) =~= Seq::<(bool, bool)>::empty());
    }
    lemma_run_append(state, sa, sb);
    lemma_run_append(state, sa + sb, sc);
    lemma_run_append(state, sa + sb + sc, sd);
    lemma_run_append(state, sa + sb + sc + sd, se);
    assert(full_step_reports(s4, se) =~= seq![dir] + idle_reports(d));
    assert(row_of(full_step_run(s4, se)) == R_START);
    assert(detent(clockwise, rest, a, b, c, d) == sa + sb + sc + sd + se);
    assert(full_step_reports(state, detent(clockwise, rest, a, b, c, d)) =~= idle_reports(
        rest + a + b + c,
    ) + seq![dir] + idle_reports(d));
}

/// A walk from rest that goes back through the same positions to rest
/// leaves the table in the start row it began in.
pub proof fn full_step_round_trip(state: u8, forward: Seq<(bool, bool)>)
    requires
        row_of(state) == R_START,
        forward.len() >= 1,
    ensures
        row_of(full_step_run(state, there_and_back((true, true), forward))) == row_of(state),
{
    let body = forward + forward.drop_last().reverse();
    assert(there_and_back((true, true), forward) == body + seq![(true, true)]);
    lemma_run_append(state, body, seq![(true, true)]);
    let before = full_step_run(state, body);
    assert(seq![(true, true)].drop_first() =~= Seq::<(bool, bool)>::empty());
    assert(full_step_run(before, seq![(true, true)]) == full_step_run(
        full_step(before, true, true),
        Seq::empty(),
    ));
}

impl FullStepMode {
    /// The current table state.
    pub closed spec fn state(&self) -> u8 {
        self.table_state
    }

    /// Creates the mode in the start row.
    pub fn new() -> (r: Self)
        ensures
            r.state() == R_START,
    {
        FullStepMode { table_state: R_START }
    }

    /// Feeds one sample of the lines and returns the direction it completes.
    pub fn update(&mut self, dt: bool, clk: bool) -> (r: Direction)
        ensures
            final(self).state() == full_step(old(self).state(), dt, clk),
            r == flagged_direction(final(self).state()),
    {
        self.table_state = full_step_next(self.table_state, pin_index(dt, clk));
        direction_of(self.table_state)
    }

    /// The current table state, for diagnostics.
    pub fn table_state(&self) -> (r: u8)
        ensures
            r == self.state(),
    {
        self.table_state
    }
}

impl<DT, CLK> RotaryEncoder<FullStepMode, DT, CLK> {
    /// Feeds the levels read from the lines to the mode, records the
    /// direction and returns it.
    pub fn update(&mut self, dt_value: bool, clk_value: bool) -> (r: Direction)
        ensures
            final(self).mode_state().state() == full_step(
                old(self).mode_state().state(),
                dt_value,
                clk_value,
            ),
            r == flagged_direction(final(self).mode_state().state()),
            final(self).last_direction() == r,
            final(self).dt_pin() == old(self).dt_pin(),
            final(self).clk_pin() == old(self).clk_pin(),
    {
        let r = self.mode().update(dt_value, clk_value);
        self.record(r);
        r
    }
}

impl<MODE, DT, CLK> RotaryEncoder<MODE, DT, CLK> {
    /// Moves the session to full-step mode, in the start row.
    pub fn into_fullstep_mode(self) -> (r: RotaryEncoder<FullStepMode, DT, CLK>)
        ensures
            r.mode_state().state() == R_START,
            r.dt_pin() == self.dt_pin(),
            r.clk_pin() == self.clk_pin(),
            r.last_direction() == Direction::Idle,
    {
        self.with_mode(FullStepMode::new())
    }
}

} // verus!
