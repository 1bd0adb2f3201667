use rotary_encoder::angular::RotaryEncoderWithVelocity;
use rotary_encoder::angular_velocity::AngularVelocityMode;
use rotary_encoder::{Direction, RotaryEncoder};

/// Two samples that make one clockwise edge.
fn cw_step(mode: &mut AngularVelocityMode, t: u64) -> Direction {
    mode.update(false, true, t);
    mode.update(false, false, t)
}

#[test]
fn quick_steps_raise_velocity() {
    let mut mode = AngularVelocityMode::new();
    assert_eq!(mode.velocity(), 0);
    assert_eq!(cw_step(&mut mode, 10), Direction::Clockwise);
    assert_eq!(mode.velocity(), 200_000);
    assert_eq!(cw_step(&mut mode, 20), Direction::Clockwise);
    assert_eq!(mode.velocity(), 400_000);
}

#[test]
fn slow_step_keeps_velocity() {
    let mut mode = AngularVelocityMode::new();
    cw_step(&mut mode, 10);
    assert_eq!(mode.velocity(), 200_000);
    // 25 ms after the last step is not within the window
    cw_step(&mut mode, 35);
    assert_eq!(mode.velocity(), 200_000);
    cw_step(&mut mode, 59);
    assert_eq!(mode.velocity(), 400_000);
}

#[test]
fn velocity_is_capped_at_one() {
    let mut mode = AngularVelocityMode::new();
    mode.set_velocity_inc_factor(700_000);
    cw_step(&mut mode, 1);
    cw_step(&mut mode, 2);
    assert_eq!(mode.velocity(), 1_000_000);
    cw_step(&mut mode, 3);
    assert_eq!(mode.velocity(), 1_000_000);
}

#[test]
fn decay_lowers_velocity_down_to_zero() {
    let mut mode = AngularVelocityMode::new();
    cw_step(&mut mode, 10);
    mode.decay_velocity();
    assert_eq!(mode.velocity(), 190_000);
    mode.set_velocity_dec_factor(150_000);
    mode.decay_velocity();
    assert_eq!(mode.velocity(), 40_000);
    mode.decay_velocity();
    assert_eq!(mode.velocity(), 0);
}

#[test]
fn velocity_never_rises_without_quick_step() {
    let mut mode = AngularVelocityMode::new();
    cw_step(&mut mode, 5);
    cw_step(&mut mode, 10);
    let mut last = mode.velocity();
    let mut t = 100;
    for _ in 0..10 {
        mode.decay_velocity();
        assert!(mode.velocity() <= last);
        last = mode.velocity();
        t += 30;
        cw_step(&mut mode, t);
        assert!(mode.velocity() <= last);
        assert!(mode.velocity() <= 1_000_000);
    }
}

#[test]
fn action_window_setting() {
    let mut mode = AngularVelocityMode::new();
    mode.set_velocity_action_ms(100);
    cw_step(&mut mode, 50);
    cw_step(&mut mode, 140);
    assert_eq!(mode.velocity(), 400_000);
}

#[test]
fn session_velocity_api() {
    let mut encoder = RotaryEncoder::new((), ()).into_angular_velocity_mode();
    encoder.set_velocity_inc_factor(500_000);
    encoder.set_velocity_dec_factor(100_000);
    encoder.set_velocity_action_ms(10);
    assert_eq!(encoder.update(false, true, 5), Direction::Idle);
    assert_eq!(encoder.update(false, false, 5), Direction::Clockwise);
    assert_eq!(encoder.direction(), Direction::Clockwise);
    assert_eq!(encoder.velocity(), 500_000);
    encoder.decay_velocity();
    assert_eq!(encoder.velocity(), 400_000);
}

#[test]
fn full_step_session_with_velocity() {
    let mut encoder = RotaryEncoderWithVelocity::new(3u8, 4u8);
    let detent = [(false, true), (false, false), (true, false), (true, true)];
    for (i, &(dt, clk)) in detent.iter().enumerate() {
        let expected = if i == 3 { Direction::Clockwise } else { Direction::Idle };
        assert_eq!(encoder.update(dt, clk, 10), expected);
    }
    assert_eq!(encoder.direction(), Direction::Clockwise);
    assert_eq!(encoder.velocity(), 200_000);
    encoder.set_velocity_inc_factor(300_000);
    for &(dt, clk) in detent.iter() {
        encoder.update(dt, clk, 30);
    }
    assert_eq!(encoder.velocity(), 500_000);
    encoder.set_velocity_action_ms(5);
    for &(dt, clk) in detent.iter() {
        encoder.update(dt, clk, 40);
    }
    assert_eq!(encoder.velocity(), 500_000);
    encoder.set_velocity_dec_factor(200_000);
    encoder.decay_velocity();
    assert_eq!(encoder.velocity(), 300_000);
    assert_eq!(encoder.borrow_inner().mode().table_state(), 0x10);
    {
        let (dt, _clk) = encoder.borrow_pins();
        *dt = 8;
    }
    assert_eq!(encoder.release(), (8, 4));
}
