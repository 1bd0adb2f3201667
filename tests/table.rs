use rotary_encoder::table::full::full_step_next;
use rotary_encoder::table::half::half_step_next;
use rotary_encoder::table::{direction_of, pin_index, row};
use rotary_encoder::Direction;

#[test]
fn pin_index_puts_dt_in_bit_one() {
    assert_eq!(pin_index(false, false), 0);
    assert_eq!(pin_index(false, true), 1);
    assert_eq!(pin_index(true, false), 2);
    assert_eq!(pin_index(true, true), 3);
}

#[test]
fn direction_flags_and_rows() {
    assert_eq!(direction_of(0x10), Direction::Clockwise);
    assert_eq!(direction_of(0x23), Direction::Anticlockwise);
    assert_eq!(direction_of(0x03), Direction::Idle);
    assert_eq!(direction_of(0x30), Direction::Idle);
    assert_eq!(row(0x23), 3);
}

#[test]
fn full_table_entries() {
    assert_eq!(full_step_next(0x00, 1), 0x02);
    assert_eq!(full_step_next(0x02, 0), 0x03);
    assert_eq!(full_step_next(0x03, 2), 0x01);
    assert_eq!(full_step_next(0x01, 3), 0x10);
    assert_eq!(full_step_next(0x05, 3), 0x20);
    // the flag does not change the row that is read
    assert_eq!(full_step_next(0x10, 1), 0x02);
    // a row outside the table falls back to the start row
    assert_eq!(full_step_next(0x0A, 1), 0x00);
}

#[test]
fn half_table_entries() {
    assert_eq!(half_step_next(0x00, 0), 0x03);
    assert_eq!(half_step_next(0x02, 0), 0x13);
    assert_eq!(half_step_next(0x01, 0), 0x23);
    assert_eq!(half_step_next(0x04, 3), 0x10);
    assert_eq!(half_step_next(0x05, 3), 0x20);
    assert_eq!(half_step_next(0x13, 1), 0x05);
}
