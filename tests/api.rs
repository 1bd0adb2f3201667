use embedded_hal::digital::InputPin;
use embedded_hal_mock::eh1::digital::{Mock, State, Transaction};
use rotary_encoder::angular_velocity::AngularVelocityMode;
use rotary_encoder::standard::StandardMode;
use rotary_encoder::{Direction, RotaryEncoder};

/// Reads both lines of a session, a failed read counting as low.
fn read_levels<MODE>(encoder: &mut RotaryEncoder<MODE, Mock, Mock>) -> (bool, bool) {
    let (dt, clk) = encoder.pins_mut();
    (dt.is_high().unwrap_or_default(), clk.is_high().unwrap_or_default())
}

#[test]
fn standard_mode_api() {
    let expectations = [Transaction::get(State::High)];

    let dt = Mock::new(&expectations);
    let clk = Mock::new(&expectations);

    // Standard mode can be used with embedded-hal pins
    let mut encoder = RotaryEncoder::new(dt, clk).into_standard_mode();
    let (dt_high, clk_high) = read_levels(&mut encoder);
    let _dir = encoder.update(dt_high, clk_high);

    // Or it can be used directly, bypassing the pins
    let mut raw_encoder = StandardMode::new();
    let _dir = raw_encoder.update(true, false);

    let (mut dt, mut clk) = encoder.release();
    dt.done();
    clk.done();
}

#[test]
fn angular_velocity_mode_api() {
    let expectations = [Transaction::get(State::High)];

    let dt = Mock::new(&expectations);
    let clk = Mock::new(&expectations);

    // Angular velocity mode can be used with embedded-hal pins
    let mut encoder = RotaryEncoder::new(dt, clk).into_angular_velocity_mode();
    let (dt_high, clk_high) = read_levels(&mut encoder);
    let dir = encoder.update(dt_high, clk_high, 2);
    assert_eq!(dir, Direction::Idle);

    // Or it can be used directly, bypassing the pins
    let mut raw_encoder = AngularVelocityMode::new();
    let _dir = raw_encoder.update(false, false, 100);
    assert_eq!(dir, Direction::Idle);

    let (mut dt, mut clk) = encoder.release();
    dt.done();
    clk.done();
}

#[test]
fn session_records_last_direction() {
    let mut encoder = RotaryEncoder::new((), ()).into_quadrature_table_mode(1);
    assert_eq!(encoder.direction(), Direction::Idle);
    assert_eq!(encoder.update(true, false), Direction::Clockwise);
    assert_eq!(encoder.direction(), Direction::Clockwise);
    assert_eq!(encoder.update(true, false), Direction::Idle);
    assert_eq!(encoder.direction(), Direction::Idle);
}

#[test]
fn session_mode_switch_keeps_pins() {
    let encoder = RotaryEncoder::new(7u8, 9u8).into_fullstep_mode();
    let mut encoder = encoder.into_debounced_mode();
    assert_eq!(encoder.get_decay(), 0);
    {
        let (dt, clk) = encoder.pins_mut();
        *dt = 1;
        *clk = 2;
    }
    assert_eq!(encoder.mode().table_state(), 0);
    assert_eq!(encoder.release(), (1, 2));
}
