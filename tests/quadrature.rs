use rotary_encoder::quadrature::QuadratureTableMode;
use rotary_encoder::Direction;

/// Collects the result of each update.
fn drive_sequence(mode: &mut QuadratureTableMode, seq: &[(bool, bool)]) -> Vec<Direction> {
    seq.iter().map(|&(dt, clk)| mode.update(dt, clk)).collect()
}

#[test]
fn single_cw_step_threshold_1() {
    let mut mode = QuadratureTableMode::new(1);
    // 00 -> 01 (+1) => immediately CW
    assert_eq!(mode.update(true, false), Direction::Clockwise);
}

#[test]
fn single_ccw_step_threshold_1() {
    let mut mode = QuadratureTableMode::new(1);
    // 00 -> 10 (-1) => immediately CCW
    assert_eq!(mode.update(false, true), Direction::Anticlockwise);
}

#[test]
fn aggregation_threshold_2_requires_two_valid_pulses() {
    let mut mode = QuadratureTableMode::new(2);
    // First valid CW pulse: 00->01 = +1, count=1 < 2 => no report
    assert_eq!(mode.update(true, false), Direction::Idle);
    // Next valid CW pulse: 01->11 = +1, count=2 >= 2 => CW
    assert_eq!(mode.update(true, true), Direction::Clockwise);
    // Counter reset: another pulse 11->10 = +1 gives no report
    assert_eq!(mode.update(false, true), Direction::Idle);
}

#[test]
fn no_movement_on_constant_state() {
    let mut mode = QuadratureTableMode::new(1);
    for _ in 0..5 {
        assert_eq!(mode.update(false, false), Direction::Idle);
    }
}

#[test]
fn invalid_transition_skipped_state() {
    let mut mode = QuadratureTableMode::new(1);
    // 00 -> 11 is a jump across the cycle
    assert_eq!(mode.update(true, true), Direction::Idle);
    // and so is 11 -> 00
    assert_eq!(mode.update(false, false), Direction::Idle);
}

#[test]
fn full_cw_cycle_threshold_1() {
    let mut mode = QuadratureTableMode::new(1);
    // A full 4-step CW quadrature cycle: 00->01->11->10->00
    let seq = [
        (false, false),
        (true, false),
        (true, true),
        (false, true),
        (false, false),
    ];
    let results = drive_sequence(&mut mode, &seq);
    assert_eq!(
        results,
        vec![
            Direction::Idle,
            Direction::Clockwise,
            Direction::Clockwise,
            Direction::Clockwise,
            Direction::Clockwise,
        ]
    );
}

#[test]
fn threshold_two_worked_example() {
    let mut mode = QuadratureTableMode::new(2);
    let results = drive_sequence(&mut mode, &[(true, false), (true, true), (false, true)]);
    assert_eq!(
        results,
        vec![Direction::Idle, Direction::Clockwise, Direction::Idle]
    );
}

#[test]
fn threshold_k_plus_one_pulses_report_once() {
    for k in 2u8..=9 {
        for clockwise in [true, false] {
            let mut mode = QuadratureTableMode::new(k);
            let cw = [(true, false), (true, true), (false, true), (false, false)];
            let ccw = [(false, true), (true, true), (true, false), (false, false)];
            let cycle = if clockwise { cw } else { ccw };
            let walk: Vec<(bool, bool)> = (0..(k as usize + 1)).map(|i| cycle[i % 4]).collect();
            let results = drive_sequence(&mut mode, &walk);
            let reports: Vec<usize> = results
                .iter()
                .enumerate()
                .filter(|(_, d)| **d != Direction::Idle)
                .map(|(i, _)| i)
                .collect();
            assert_eq!(reports, vec![k as usize - 1]);
            let expected = if clockwise {
                Direction::Clockwise
            } else {
                Direction::Anticlockwise
            };
            assert_eq!(results[k as usize - 1], expected);
        }
    }
}

#[test]
fn threshold_one_invalid_jump_keeps_counter() {
    let mut mode = QuadratureTableMode::new(1);
    assert_eq!(mode.update(true, true), Direction::Idle);
    // the counter is still zero: one movement reports at once
    assert_eq!(mode.update(false, true), Direction::Clockwise);
}

#[test]
fn counter_round_trip_returns_to_start() {
    let mut mode = QuadratureTableMode::new(3);
    let forward = [(true, false), (true, true), (false, true), (false, false), (true, false)];
    let mut back: Vec<(bool, bool)> = forward[..forward.len() - 1].iter().rev().cloned().collect();
    back.push((false, false));
    let out_forward = drive_sequence(&mut mode, &forward);
    let out_back = drive_sequence(&mut mode, &back);
    assert_eq!(out_forward.iter().filter(|d| **d == Direction::Clockwise).count(), 1);
    assert_eq!(out_back.iter().filter(|d| **d == Direction::Anticlockwise).count(), 1);
    // with the sum back at zero, two more movements are needed than one
    assert_eq!(mode.update(true, false), Direction::Idle);
    assert_eq!(mode.update(true, true), Direction::Idle);
    assert_eq!(mode.update(false, true), Direction::Clockwise);
}

#[test]
fn threshold_zero_reports_every_sample() {
    let mut mode = QuadratureTableMode::new(0);
    assert_eq!(mode.update(true, false), Direction::Clockwise);
    assert_eq!(mode.update(true, false), Direction::Anticlockwise);
}

#[test]
fn large_threshold_does_not_overflow() {
    let mut mode = QuadratureTableMode::new(255);
    let cycle = [(true, false), (true, true), (false, true), (false, false)];
    for i in 0..254 {
        assert_eq!(mode.update(cycle[i % 4].0, cycle[i % 4].1), Direction::Idle);
    }
    assert_eq!(mode.update(cycle[254 % 4].0, cycle[254 % 4].1), Direction::Clockwise);
}

#[test]
fn default_is_threshold_one() {
    let mut mode = QuadratureTableMode::default();
    assert_eq!(mode.update(true, false), Direction::Clockwise);
}
