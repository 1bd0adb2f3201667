use rotary_encoder::standard::StandardMode;
use rotary_encoder::strategy::Strategy;
use rotary_encoder::{Direction, RotaryEncoder};

#[test]
fn clk_falling_while_dt_low_is_clockwise() {
    let mut mode = StandardMode::new();
    assert_eq!(mode.update(false, true), Direction::Idle);
    assert_eq!(mode.update(false, false), Direction::Clockwise);
    assert_eq!(mode.update(false, false), Direction::Idle);
}

#[test]
fn dt_falling_while_clk_low_is_anticlockwise() {
    let mut mode = StandardMode::new();
    assert_eq!(mode.update(true, false), Direction::Idle);
    assert_eq!(mode.update(false, false), Direction::Anticlockwise);
}

#[test]
fn first_sample_low_reads_dt_edge() {
    // the history starts with DT high and CLK low
    let mut mode = StandardMode::default();
    assert_eq!(mode.update(false, false), Direction::Anticlockwise);
}

#[test]
fn both_lines_falling_is_not_reported() {
    let mut mode = StandardMode::new();
    assert_eq!(mode.update(true, true), Direction::Idle);
    assert_eq!(mode.update(false, false), Direction::Idle);
}

#[test]
fn edge_with_other_line_high_is_not_reported() {
    let mut mode = StandardMode::new();
    assert_eq!(mode.update(true, true), Direction::Idle);
    assert_eq!(mode.update(true, false), Direction::Idle);
    assert_eq!(mode.update(false, true), Direction::Idle);
}

#[test]
fn session_standard_update() {
    let mut encoder = RotaryEncoder::new((), ()).into_standard_mode();
    assert_eq!(encoder.update(false, true), Direction::Idle);
    assert_eq!(encoder.update(false, false), Direction::Clockwise);
    assert_eq!(encoder.direction(), Direction::Clockwise);
}

#[test]
fn strategy_edge_decoder_dispatch() {
    let mut s = Strategy::EdgeDecoder(StandardMode::new());
    assert_eq!(s.update(false, true, 5), Direction::Idle);
    assert_eq!(s.update(false, false, 6), Direction::Clockwise);
}
