//! Quadrature table mode: signed movements summed up to a threshold.
use vstd::prelude::*;

use crate::{idle_reports, there_and_back, Direction, RotaryEncoder};

verus! {

/// The two-bit line state of a sample: DT in bit 0, CLK in bit 1.
pub open spec fn quadrature_code(dt: bool, clk: bool) -> u8 {
    ((if dt { 1u8 } else { 0u8 }) + (if clk { 2u8 } else { 0u8 })) as u8
}

/// Where a two-bit line state stands on the quadrature cycle, numbered in
/// clockwise order: `00`, `01`, `11`, `10` (written CLK then DT).
pub open spec fn cycle_position(code: u8) -> int {
    if code == 0 {
        0
    } else if code == 1 {
        1
    } else if code == 3 {
        2
    } else {
        3
    }
}

/// The movement from one line state to the next: `1` for one position
/// clockwise, `-1` for one position anti-clockwise, `0` for no movement or
/// for a jump across the cycle, which cannot come from a real turn.
pub open spec fn quadrature_delta(prev: u8, curr: u8) -> int {
    let ahead = (cycle_position(curr) - cycle_position(prev) + 4) % 4;
    if ahead == 1 {
        1
    } else if ahead == 3 {
        -1
    } else {
        0
    }
}

/// The report for a running sum that has just been updated.
pub open spec fn quadrature_report(sum: int, threshold: u8) -> Direction {
    if sum >= threshold || -sum >= threshold {
        if sum > 0 {
            Direction::Clockwise
        } else {
            Direction::Anticlockwise
        }
    } else {
        Direction::Idle
    }
}

/// One sample applied to a line state `prev` and a running sum `count`:
/// the new line state, the new running sum and the report.
pub open spec fn quadrature_step(prev: u8, count: int, threshold: u8, dt: bool, clk: bool) -> (
    u8,
    int,
    Direction,
) {
    let curr = quadrature_code(dt, clk);
    let sum = count + quadrature_delta(prev, curr);
    let report = quadrature_report(sum, threshold);
    (curr, if report == Direction::Idle { sum } else { 0 }, report)
}

/// The line state and running sum after a run of samples.
pub open spec fn quadrature_run(prev: u8, count: int, threshold: u8, samples: Seq<(bool, bool)>) -> (
    u8,
    int,
)
    decreases samples.len(),
{
    if samples.len() == 0 {
        (prev, count)
    } else {
        let next = quadrature_step(prev, count, threshold, samples[0].0, samples[0].1);
        quadrature_run(next.0, next.1, threshold, samples.drop_first())
    }
}

/// The directions reported along a run of samples, one per sample.
pub open spec fn quadrature_reports(
    prev: u8,
    count: int,
    threshold: u8,
    samples: Seq<(bool, bool)>,
) -> Seq<Direction>
    decreases samples.len(),
{
    if samples.len() == 0 {
        Seq::empty()
    } else {
        let next = quadrature_step(prev, count, threshold, samples[0].0, samples[0].1);
        seq![next.2] + quadrature_reports(next.0, next.1, threshold, samples.drop_first())
    }
}

/// The sample whose line state stands at position `pos` (taken modulo 4)
/// of the quadrature cycle.
pub open spec fn cycle_sample(pos: int) -> (bool, bool) {
    let m = pos % 4;
    if m == 0 {
        (false, false)
    } else if m == 1 {
        (true, false)
    } else if m == 2 {
        (true, true)
    } else {
        (false, true)
    }
}

/// `n` single movements in one sense, starting next to position `from`.
pub open spec fn pulses(from: int, n: nat, clockwise: bool) -> Seq<(bool, bool)> {
    Seq::new(n, |i: int| cycle_sample(if clockwise { from + i + 1 } else { from - i - 1 }))
}

proof fn lemma_run_append(
    prev: u8,
    count: int,
    threshold: u8,
    a: Seq<(bool, bool)>,
    b: Seq<(bool, bool)>,
)
    ensures
        quadrature_run(prev, count, threshold, a + b) == ({
            let mid = quadrature_run(prev, count, threshold, a);
            quadrature_run(mid.0, mid.1, threshold, b)
        }),
        quadrature_reports(prev, count, threshold, a + b) == quadrature_reports(
            prev,
            count,
            threshold,
            a,
        ) + ({
            let mid = quadrature_run(prev, count, threshold, a);
            quadrature_reports(mid.0, mid.1, threshold, b)
        }),
    decreases a.len(),
{
    if a.len() == 0 {
        assert(a + b =~= b);
        assert(quadrature_reports(prev, count, threshold, a + b) =~= quadrature_reports(
            prev,
            count,
            threshold,
            a,
        ) + quadrature_reports(prev, count, threshold, b));
    } else {
        let next = quadrature_step(prev, count, threshold, a[0].0, a[0].1);
        assert((a + b)[0] == a[0]);
        assert((a + b).drop_first() =~= a.drop_first() + b);
        lemma_run_append(next.0, next.1, threshold, a.drop_first(), b);
        let mid = quadrature_run(prev, count, threshold, a);
        assert(quadrature_reports(prev, count, threshold, a + b) =~= quadrature_reports(
            prev,
            count,
            threshold,
            a,
        ) + quadrature_reports(mid.0, mid.1, threshold, b));
    }
}

proof fn lemma_run_one(prev: u8, count: int, threshold: u8, sample: (bool, bool))
    ensures
        ({
            let next = quadrature_step(prev, count, threshold, sample.0, sample.1);
            &&& quadrature_run(prev, count, threshold, seq![sample]) == (next.0, next.1)
            &&& quadrature_reports(prev, count, threshold, seq![sample]) == seq![next.2]
        }),
{
    let next = quadrature_step(prev, count, threshold, sample.0, sample.1);
    assert(seq![sample][0] == sample);
    assert(seq![sample].drop_first() =~= Seq::<(bool, bool)>::empty());
    assert(quadrature_run(next.0, next.1, threshold, Seq::empty()) == (next.0, next.1));
    assert(quadrature_reports(next.0, next.1, threshold, Seq::empty()) =~= Seq::<
        Direction,
    >::empty());
    assert(quadrature_reports(prev, count, threshold, seq![sample]) =~= seq![next.2]);
}

proof fn lemma_cycle_sample(pos: int)
    ensures
        cycle_position(quadrature_code(cycle_sample(pos).0, cycle_sample(pos).1)) == pos % 4,
        quadrature_code(cycle_sample(pos).0, cycle_sample(pos).1) < 4,
{
}

/// A movement of one position along the cycle is a movement of one.
proof fn lemma_one_pulse(pos: int, clockwise: bool)
    ensures
        ({
            let next = if clockwise { pos + 1 } else { pos - 1 };
            let prev = quadrature_code(cycle_sample(pos).0, cycle_sample(pos).1);
            let curr = quadrature_code(cycle_sample(next).0, cycle_sample(next).1);
            quadrature_delta(prev, curr) == if clockwise { 1int } else { -1int }
        }),
{
    let next = if clockwise { pos + 1 } else { pos - 1 };
    lemma_cycle_sample(pos);
    lemma_cycle_sample(next);
}

/// Fewer single movements than the threshold, from a zero sum, are summed
/// and not reported.
proof fn lemma_pulses_below_threshold(prev: u8, from: int, n: nat, threshold: u8, clockwise: bool)
    requires
        prev == quadrature_code(cycle_sample(from).0, cycle_sample(from).1),
        n < threshold,
    ensures
        ({
            let end = if clockwise { from + n } else { from - n };
            quadrature_run(prev, 0, threshold, pulses(from, n, clockwise)) == (
                quadrature_code(cycle_sample(end).0, cycle_sample(end).1),
                if clockwise { n as int } else { -n },
            )
        }),
        quadrature_reports(prev, 0, threshold, pulses(from, n, clockwise)) == idle_reports(n),
    decreases n,
{
    if n == 0 {
        assert(pulses(from, n, clockwise) =~= Seq::<(bool, bool)>::empty());
        assert(quadrature_reports(prev, 0, threshold, pulses(from, n, clockwise))
            =~= idle_reports(n));
    } else {
        let m = (n - 1) as nat;
        let last = if clockwise { from + n } else { from - n };
        let before = if clockwise { from + m } else { from - m };
        assert(pulses(from, n, clockwise) =~= pulses(from, m, clockwise) + seq![
            cycle_sample(last),
        ]);
        lemma_pulses_below_threshold(prev, from, m, threshold, clockwise);
        lemma_run_append(prev, 0, threshold, pulses(from, m, clockwise), seq![cycle_sample(last)]);
        let mid = quadrature_run(prev, 0, threshold, pulses(from, m, clockwise));
        lemma_one_pulse(before, clockwise);
        assert(last == if clockwise { before + 1 } else { before - 1 });
        lemma_run_one(mid.0, mid.1, threshold, cycle_sample(last));
        lemma_cycle_sample(last);
        assert(quadrature_reports(prev, 0, threshold, pulses(from, n, clockwise))
            =~= idle_reports(n));
    }
}

/// With a threshold of 1 and a zero sum, a single movement is reported at
/// once in its sense; no movement, or an impossible jump across the
/// cycle, reports nothing and leaves the sum at zero.
pub proof fn quadrature_threshold_one(prev: u8, dt: bool, clk: bool)
    requires
        prev < 4,
    ensures
        ({
            let next = quadrature_step(prev, 0, 1, dt, clk);
            let delta = quadrature_delta(prev, quadrature_code(dt, clk));
            &&& delta == 1 ==> next.2 == Direction::Clockwise && next.1 == 0
            &&& delta == -1 ==> next.2 == Direction::Anticlockwise && next.1 == 0
            &&& delta == 0 ==> next.2 == Direction::Idle && next.1 == 0
        }),
{
}

/// With a threshold `k > 1`, `k + 1` single movements in one sense, from a
/// zero sum, give exactly one report: at the `k`-th movement, in their
/// sense, after which the sum starts again and holds the last movement.
pub proof fn quadrature_threshold_reports_once(prev: u8, from: int, threshold: u8, clockwise: bool)
    requires
        prev == quadrature_code(cycle_sample(from).0, cycle_sample(from).1),
        threshold > 1,
    ensures
        quadrature_reports(prev, 0, threshold, pulses(from, (threshold + 1) as nat, clockwise))
            == idle_reports((threshold - 1) as nat) + seq![
            if clockwise { Direction::Clockwise } else { Direction::Anticlockwise },
            Direction::Idle,
        ],
        quadrature_run(prev, 0, threshold, pulses(from, (threshold + 1) as nat, clockwise)).1 == (
        if clockwise { 1int } else { -1int }),
{
    let k = threshold as int;
    let m = (k - 1) as nat;
    let at_k = if clockwise { from + k } else { from - k };
    let at_m = if clockwise { from + m } else { from - m };
    let after = if clockwise { from + k + 1 } else { from - k - 1 };
    let dir = if clockwise { Direction::Clockwise } else { Direction::Anticlockwise };
    assert(pulses(from, (k + 1) as nat, clockwise) =~= pulses(from, m, clockwise) + seq![
        cycle_sample(at_k),
    ] + seq![cycle_sample(after)]);
    lemma_pulses_below_threshold(prev, from, m, threshold, clockwise);
    let s1 = quadrature_run(prev, 0, threshold, pulses(from, m, clockwise));
    lemma_one_pulse(at_m, clockwise);
    assert(at_k == if clockwise { at_m + 1 } else { at_m - 1 });
    lemma_run_one(s1.0, s1.1, threshold, cycle_sample(at_k));
    let s2 = quadrature_step(s1.0, s1.1, threshold, cycle_sample(at_k).0, cycle_sample(at_k).1);
    assert(s2.2 == dir && s2.1 == 0);
    lemma_one_pulse(at_k, clockwise);
    assert(after == if clockwise { at_k + 1 } else { at_k - 1 });
    lemma_cycle_sample(at_k);
    lemma_run_one(s2.0, s2.1, threshold, cycle_sample(after));
    lemma_run_append(prev, 0, threshold, pulses(from, m, clockwise), seq![cycle_sample(at_k)]);
    lemma_run_append(
        prev,
        0,
        threshold,
        pulses(from, m, clockwise) + seq![cycle_sample(at_k)],
        seq![cycle_sample(after)],
    );
    assert(quadrature_reports(prev, 0, threshold, pulses(from, (k + 1) as nat, clockwise))
        =~= idle_reports(m) + seq![dir, Direction::Idle]);
}

/// The line state of the last sample of a run, or `prev` for an empty run.
pub open spec fn end_code(prev: u8, samples: Seq<(bool, bool)>) -> u8 {
    if samples.len() == 0 {
        prev
    } else {
        quadrature_code(samples.last().0, samples.last().1)
    }
}

/// The sum of the movements along a run of samples that starts from line
/// state `prev`, with no threshold applied.
pub open spec fn walk_delta(prev: u8, samples: Seq<(bool, bool)>) -> int
    decreases samples.len(),
{
    if samples.len() == 0 {
        0
    } else {
        let curr = quadrature_code(samples[0].0, samples[0].1);
        quadrature_delta(prev, curr) + walk_delta(curr, samples.drop_first())
    }
}

proof fn lemma_walk_append(prev: u8, a: Seq<(bool, bool)>, b: Seq<(bool, bool)>)
    ensures
        walk_delta(prev, a + b) == walk_delta(prev, a) + walk_delta(end_code(prev, a), b),
    decreases a.len(),
{
    if a.len() == 0 {
        assert(a + b =~= b);
    } else {
        let curr = quadrature_code(a[0].0, a[0].1);
        assert((a + b)[0] == a[0]);
        assert((a + b).drop_first() =~= a.drop_first() + b);
        lemma_walk_append(curr, a.drop_first(), b);
        if a.len() > 1 {
            assert(a.drop_first().last() == a.last());
        }
    }
}

proof fn lemma_walk_one(prev: u8, sample: (bool, bool))
    ensures
        walk_delta(prev, seq![sample]) == quadrature_delta(
            prev,
            quadrature_code(sample.0, sample.1),
        ),
{
    assert(seq![sample][0] == sample);
    assert(seq![sample].drop_first() =~= Seq::<(bool, bool)>::empty());
    assert(walk_delta(quadrature_code(sample.0, sample.1), Seq::empty()) == 0);
}

/// Walking the same positions backwards, to the start, undoes the sum.
proof fn lemma_walk_back(start: (bool, bool), forward: Seq<(bool, bool)>)
    requires
        forward.len() >= 1,
    ensures
        walk_delta(
            quadrature_code(forward.last().0, forward.last().1),
            forward.drop_last().reverse() + seq![start],
        ) == -walk_delta(quadrature_code(start.0, start.1), forward),
    decreases forward.len(),
{
    let x = forward.last();
    let cx = quadrature_code(x.0, x.1);
    let cs = quadrature_code(start.0, start.1);
    let rest = forward.drop_last();
    assert(forward =~= rest + seq![x]);
    lemma_walk_append(cs, rest, seq![x]);
    lemma_walk_one(end_code(cs, rest), x);
    if forward.len() == 1 {
        assert(rest.reverse() + seq![start] =~= seq![start]);
        assert(rest =~= Seq::<(bool, bool)>::empty());
        lemma_walk_one(cx, start);
    } else {
        let y = rest.last();
        let cy = quadrature_code(y.0, y.1);
        let back = rest.drop_last().reverse() + seq![start];
        lemma_walk_back(start, rest);
        assert(rest.reverse() + seq![start] =~= seq![y] + back);
        lemma_walk_append(cx, seq![y], back);
        lemma_walk_one(cx, y);
    }
}

/// The running sum differs from the plain sum of movements by a multiple
/// of the threshold, and stays below the threshold in size.
proof fn lemma_run_wraps(prev: u8, count: int, threshold: u8, samples: Seq<(bool, bool)>) -> (wraps:
    int)
    requires
        threshold >= 1,
        -threshold < count < threshold,
    ensures
        quadrature_run(prev, count, threshold, samples).1 == count + walk_delta(prev, samples)
            + threshold * wraps,
        -threshold < quadrature_run(prev, count, threshold, samples).1 < threshold,
        quadrature_run(prev, count, threshold, samples).0 == end_code(prev, samples),
    decreases samples.len(),
{
    if samples.len() == 0 {
        assert(threshold * 0 == 0) by (nonlinear_arith);
        0
    } else {
        let next = quadrature_step(prev, count, threshold, samples[0].0, samples[0].1);
        let rest = samples.drop_first();
        let w = lemma_run_wraps(next.0, next.1, threshold, rest);
        let sum = count + quadrature_delta(prev, quadrature_code(samples[0].0, samples[0].1));
        let r: int = if next.2 == Direction::Idle {
            0
        } else if sum > 0 {
            1
        } else {
            -1
        };
        let t = threshold as int;
        if r == 0 {
            assert(t * r == 0) by (nonlinear_arith)
                requires
                    r == 0,
            ;
        } else if r == 1 {
            assert(t * r == t) by (nonlinear_arith)
                requires
                    r == 1,
            ;
        } else {
            assert(t * r == -t) by (nonlinear_arith)
                requires
                    r == -1,
            ;
        }
        assert(next.1 == sum - t * r);
        if rest.len() > 0 {
            assert(rest.last() == samples.last());
        } else {
            assert(samples.last() == samples[0]);
        }
        assert(t * w - t * r == t * (w - r)) by (nonlinear_arith);
        w - r
    }
}

/// With a zero threshold every sample resets the running sum.
proof fn lemma_run_zero_threshold(prev: u8, count: int, samples: Seq<(bool, bool)>)
    requires
        samples.len() >= 1,
    ensures
        quadrature_run(prev, count, 0, samples) == (end_code(prev, samples), 0int),
    decreases samples.len(),
{
    let next = quadrature_step(prev, count, 0, samples[0].0, samples[0].1);
    let rest = samples.drop_first();
    if rest.len() > 0 {
        assert(rest.last() == samples.last());
        lemma_run_zero_threshold(next.0, next.1, rest);
    } else {
        assert(samples.last() == samples[0]);
        assert(quadrature_run(next.0, next.1, 0, rest) == (next.0, next.1));
    }
}

/// A walk that goes back through the same positions to where it began
/// leaves the line state as it was, and a running sum that was zero at
/// zero.
pub proof fn quadrature_round_trip(start: (bool, bool), threshold: u8, forward: Seq<(bool, bool)>)
    requires
        forward.len() >= 1,
    ensures
        quadrature_run(
            quadrature_code(start.0, start.1),
            0,
            threshold,
            there_and_back(start, forward),
        ) == (quadrature_code(start.0, start.1), 0int),
{
    let cs = quadrature_code(start.0, start.1);
    let walk = there_and_back(start, forward);
    let back = forward.drop_last().reverse() + seq![start];
    assert(walk =~= forward + back);
    assert(walk.last() == start);
    if threshold == 0 {
        lemma_run_zero_threshold(cs, 0, walk);
    } else {
        lemma_walk_append(cs, forward, back);
        lemma_walk_back(start, forward);
        let w = lemma_run_wraps(cs, 0, threshold, walk);
        let t = threshold as int;
        assert(w == 0) by (nonlinear_arith)
            requires
                t >= 1,
                -t < t * w < t,
        ;
    }
}

/// Looks up the movement for the index `(prev << 2) | curr`.
fn quadrature_delta_at(index: u8) -> (r: i8)
    requires
        index < 16,
    ensures
        r == quadrature_delta(index / 4, index % 4),
{
    match index {
        0b0000 => 0,
        0b0001 => 1,
        0b0010 => -1,
        0b0011 => 0,
        0b0100 => -1,
        0b0101 => 0,
        0b0110 => 0,
        0b0111 => 1,
        0b1000 => 1,
        0b1001 => 0,
        0b1010 => 0,
        0b1011 => -1,
        0b1100 => 0,
        0b1101 => -1,
        0b1110 => 1,
        _ => 0,
    }
}

/// Quadrature table mode.
///
/// Each sample is compared with the one before it and turned into a
/// movement of `1`, `-1` or `0`. The movements are summed; once the sum
/// reaches `threshold` in size, its sign is reported and the sum starts
/// again from zero. This mode suits encoders without detents.
pub struct QuadratureTableMode {
    prev_state: u8,
    threshold: u8,
    count: i16,
}

impl QuadratureTableMode {
    /// The line state of the last sample.
    pub closed spec fn prev(&self) -> u8 {
        self.prev_state
    }

    /// The running sum of movements.
    pub closed spec fn count(&self) -> int {
        self.count as int
    }

    /// The size of sum that is reported.
    pub closed spec fn threshold(&self) -> u8 {
        self.threshold
    }

    /// The running sum stays below the threshold in size, and is zero when
    /// the threshold is zero.
    #[verifier::type_invariant]
    spec fn inv(&self) -> bool {
        &&& self.prev_state < 4
        &&& self.count == 0 || (self.count < self.threshold && -self.count < self.threshold)
    }

    /// Creates the mode with both lines low and a zero sum. `threshold` is
    /// the size of sum that is reported: 1 reports every movement.
    pub fn new(threshold: u8) -> (r: Self)
        ensures
            r.prev() == 0,
            r.count() == 0,
            r.threshold() == threshold,
    {
        QuadratureTableMode { prev_state: 0, threshold, count: 0 }
    }

    /// Feeds one sample of the lines and returns the direction reported.
    pub fn update(&mut self, dt: bool, clk: bool) -> (r: Direction)
        ensures
            final(self).threshold() == old(self).threshold(),
            (final(self).prev(), final(self).count(), r) == quadrature_step(
                old(self).prev(),
                old(self).count(),
                old(self).threshold(),
                dt,
                clk,
            ),
    {
        proof {
            use_type_invariant(&*self);
        }
        let low: u8 = if dt { 1 } else { 0 };
        let high: u8 = if clk { 2 } else { 0 };
        let curr = low + high;
        let prev = self.prev_state;
        assert(((prev << 2u8) | curr) == prev * 4 + curr) by (bit_vector)
            requires
                prev < 4,
                curr < 4,
        ;
        let delta = quadrature_delta_at((prev << 2) | curr);
        self.prev_state = curr;
        let sum: i16 = self.count + delta as i16;
        let size: i16 = if sum < 0 { -sum } else { sum };
        if size >= self.threshold as i16 {
            self.count = 0;
            if sum > 0 {
                Direction::Clockwise
            } else {
                Direction::Anticlockwise
            }
        } else {
            self.count = sum;
            Direction::Idle
        }
    }
}

impl<DT, CLK> RotaryEncoder<QuadratureTableMode, DT, CLK> {
    /// Feeds the levels read from the lines to the mode, records the
    /// direction and returns it.
    pub fn update(&mut self, dt_value: bool, clk_value: bool) -> (r: Direction)
        ensures
            final(self).mode_state().threshold() == old(self).mode_state().threshold(),
            (final(self).mode_state().prev(), final(self).mode_state().count(), r)
                == quadrature_step(
                old(self).mode_state().prev(),
                old(self).mode_state().count(),
                old(self).mode_state().threshold(),
                dt_value,
                clk_value,
            ),
            final(self).last_direction() == r,
            final(self).dt_pin() == old(self).dt_pin(),
            final(self).clk_pin() == old(self).clk_pin(),
    {
        let r = self.mode().update(dt_value, clk_value);
        self.record(r);
        r
    }
}

impl<MODE, DT, CLK> RotaryEncoder<MODE, DT, CLK> {
    /// Moves the session to quadrature table mode with the given threshold.
    pub fn into_quadrature_table_mode(self, threshold: u8) -> (r: RotaryEncoder<
        QuadratureTableMode,
        DT,
        CLK,
    >)
        ensures
            r.mode_state().prev() == 0,
            r.mode_state().count() == 0,
            r.mode_state().threshold() == threshold,
            r.dt_pin() == self.dt_pin(),
            r.clk_pin() == self.clk_pin(),
            r.last_direction() == Direction::Idle,
    {
        self.with_mode(QuadratureTableMode::new(threshold))
    }
}

impl Default for QuadratureTableMode {
    /// The most sensitive mode: every movement is reported.
    fn default() -> (r: Self)
        ensures
            r.prev() == 0,
            r.count() == 0,
            r.threshold() == 1,
    {
        Self::new(1)
    }
}

} // verus!
