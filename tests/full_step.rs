use rotary_encoder::full_step::FullStepMode;
use rotary_encoder::strategy::Strategy;
use rotary_encoder::Direction;

fn drive(mode: &mut FullStepMode, seq: &[((bool, bool), usize)]) -> Vec<Direction> {
    let mut out = Vec::new();
    for &((dt, clk), n) in seq {
        for _ in 0..n {
            out.push(mode.update(dt, clk));
        }
    }
    out
}

#[test]
fn clockwise_detent_reports_once_at_rest() {
    let mut mode = FullStepMode::new();
    let out = drive(
        &mut mode,
        &[((true, true), 2), ((false, true), 3), ((false, false), 2), ((true, false), 4), ((true, true), 3)],
    );
    let mut expected = vec![Direction::Idle; 11];
    expected.push(Direction::Clockwise);
    expected.extend([Direction::Idle, Direction::Idle]);
    assert_eq!(out, expected);
    assert_eq!(mode.table_state() & 0x0F, 0);
}

#[test]
fn anticlockwise_detent_reports_once_at_rest() {
    let mut mode = FullStepMode::new();
    let out = drive(
        &mut mode,
        &[((true, false), 1), ((false, false), 5), ((false, true), 1), ((true, true), 1)],
    );
    assert_eq!(
        out,
        vec![
            Direction::Idle,
            Direction::Idle,
            Direction::Idle,
            Direction::Idle,
            Direction::Idle,
            Direction::Idle,
            Direction::Idle,
            Direction::Anticlockwise
        ]
    );
    assert_eq!(mode.table_state(), 0x20);
}

#[test]
fn cycle_started_from_both_low_is_not_reported() {
    let mut mode = FullStepMode::new();
    let out = drive(
        &mut mode,
        &[((false, false), 1), ((true, false), 1), ((true, true), 1), ((false, true), 1), ((false, false), 1)],
    );
    assert!(out.iter().all(|d| *d == Direction::Idle));
}

#[test]
fn half_cycle_and_back_is_not_reported() {
    let mut mode = FullStepMode::new();
    let out = drive(
        &mut mode,
        &[((false, true), 1), ((false, false), 1), ((false, true), 1), ((true, true), 1)],
    );
    assert!(out.iter().all(|d| *d == Direction::Idle));
    assert_eq!(mode.table_state(), 0);
}

#[test]
fn full_step_round_trip_returns_to_start_row() {
    let mut mode = FullStepMode::new();
    let forward = [(false, true), (false, false), (true, false), (true, true), (false, true)];
    for (dt, clk) in forward {
        mode.update(dt, clk);
    }
    for &(dt, clk) in forward[..forward.len() - 1].iter().rev() {
        mode.update(dt, clk);
    }
    mode.update(true, true);
    assert_eq!(mode.table_state() & 0x0F, 0);
}

#[test]
fn strategy_full_step_dispatch() {
    let mut s = Strategy::FullStep(FullStepMode::new());
    let seq = [(false, true), (false, false), (true, false), (true, true)];
    let out: Vec<Direction> = seq.iter().map(|&(dt, clk)| s.update(dt, clk, 0)).collect();
    assert_eq!(
        out,
        vec![Direction::Idle, Direction::Idle, Direction::Idle, Direction::Clockwise]
    );
}
