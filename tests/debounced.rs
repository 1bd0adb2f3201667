use rotary_encoder::debounced::DebouncedMode;
use rotary_encoder::strategy::Strategy;
use rotary_encoder::{Direction, RotaryEncoder};

#[test]
fn half_step_accepted_after_quiet_period() {
    let mut mode = DebouncedMode::new();
    assert_eq!(mode.update(false, true, 90), Direction::Idle);
    assert_eq!(mode.update(false, false, 100), Direction::Clockwise);
    assert_eq!(mode.decay(), 200_000);
    assert_eq!(mode.table_state(), 0);
}

#[test]
fn half_step_inside_first_window_is_dropped() {
    let mut mode = DebouncedMode::new();
    assert_eq!(mode.update(false, true, 10), Direction::Idle);
    // 60 ms have not passed since time 0
    assert_eq!(mode.update(false, false, 60), Direction::Idle);
    assert_eq!(mode.decay(), 0);
}

#[test]
fn bounce_inside_window_reports_nothing() {
    let mut mode = DebouncedMode::new();
    assert_eq!(mode.update(false, true, 90), Direction::Idle);
    assert_eq!(mode.update(false, false, 100), Direction::Clockwise);
    // window is now 60 - 60 * 0.2 = 48 ms
    assert_eq!(mode.update(false, false, 110), Direction::Idle);
    assert_eq!(mode.update(false, true, 115), Direction::Idle);
    // the table finds anti-clockwise here, inside the window
    assert_eq!(mode.update(true, true, 120), Direction::Idle);
    assert_eq!(mode.update(false, true, 130), Direction::Idle);
    // the table finds clockwise here, exactly 48 ms after: still inside
    assert_eq!(mode.update(false, false, 148), Direction::Idle);
    assert_eq!(mode.update(false, true, 149), Direction::Idle);
    // 49 ms after: accepted
    assert_eq!(mode.update(true, true, 149), Direction::Anticlockwise);
    assert_eq!(mode.decay(), 400_000);
}

#[test]
fn earlier_timestamp_is_never_accepted() {
    let mut mode = DebouncedMode::new();
    assert_eq!(mode.update(false, true, 500), Direction::Idle);
    assert_eq!(mode.update(false, false, 500), Direction::Clockwise);
    assert_eq!(mode.update(false, true, 10), Direction::Idle);
    assert_eq!(mode.update(true, true, 10), Direction::Idle);
}

#[test]
fn tick_fades_decay() {
    let mut mode = DebouncedMode::new();
    mode.update(false, true, 90);
    mode.update(false, false, 100);
    assert_eq!(mode.decay(), 200_000);
    mode.tick(50);
    assert_eq!(mode.decay(), 100_000);
    mode.tick(100);
    assert_eq!(mode.decay(), 0);
}

#[test]
fn decay_is_capped_at_one() {
    let mut mode = DebouncedMode::new();
    mode.set_decay_increment(700_000);
    mode.set_debounce_duration_millis(10);
    mode.update(false, true, 20);
    assert_eq!(mode.update(false, false, 20), Direction::Clockwise);
    assert_eq!(mode.decay(), 700_000);
    mode.update(false, false, 40);
    mode.update(false, true, 40);
    assert_eq!(mode.update(true, true, 40), Direction::Anticlockwise);
    assert_eq!(mode.decay(), 1_000_000);
    // with full decay the wait is zero: the same millisecond is too soon,
    // the next one is not
    mode.update(false, true, 40);
    assert_eq!(mode.update(false, false, 40), Direction::Idle);
    mode.update(false, true, 41);
    assert_eq!(mode.update(true, true, 41), Direction::Anticlockwise);
}

#[test]
fn session_debounced_settings() {
    let mut encoder = RotaryEncoder::new((), ()).into_debounced_mode();
    assert_eq!(encoder.get_decay_factor(), 2_000_000);
    encoder.set_decay_factor(1_000_000);
    assert_eq!(encoder.get_decay_factor(), 1_000_000);
    encoder.set_decay_increment(500_000);
    encoder.set_debounce_duration_millis(20);
    assert_eq!(encoder.update(false, true, 30), Direction::Idle);
    assert_eq!(encoder.update(false, false, 30), Direction::Clockwise);
    assert_eq!(encoder.get_decay(), 500_000);
    encoder.tick(100);
    assert_eq!(encoder.get_decay(), 400_000);
    assert_eq!(encoder.direction(), Direction::Clockwise);
}

#[test]
fn debounced_round_trip_returns_to_start_row() {
    let mut mode = DebouncedMode::new();
    let forward = [(false, true), (false, false), (true, false)];
    let mut t = 0u64;
    for (dt, clk) in forward {
        t += 7;
        mode.update(dt, clk, t);
    }
    for &(dt, clk) in forward[..forward.len() - 1].iter().rev() {
        t += 7;
        mode.update(dt, clk, t);
    }
    mode.update(true, true, t + 7);
    assert_eq!(mode.table_state() & 0x0F, 0);
}

#[test]
fn strategy_debounce_dispatch() {
    let mut s = Strategy::HalfStepDebounce(DebouncedMode::new());
    assert_eq!(s.update(false, true, 90), Direction::Idle);
    assert_eq!(s.update(false, false, 100), Direction::Clockwise);
}
