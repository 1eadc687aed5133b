use fleet_clock::digits::{num2bytes, time2bytes, Hours};

#[test]
fn num2bytes_splits_decimal_digits() {
    assert_eq!(num2bytes(0), [0, 0, 0, 0]);
    assert_eq!(num2bytes(7), [0, 0, 0, 7]);
    assert_eq!(num2bytes(42), [0, 0, 4, 2]);
    assert_eq!(num2bytes(905), [0, 9, 0, 5]);
    assert_eq!(num2bytes(1234), [1, 2, 3, 4]);
    assert_eq!(num2bytes(9999), [9, 9, 9, 9]);
}

#[test]
fn num2bytes_saturates_above_four_digits() {
    assert_eq!(num2bytes(10_000), [9, 9, 9, 9]);
    assert_eq!(num2bytes(65_535), [9, 9, 9, 9]);
}

#[test]
fn time2bytes_morning_reads_as_is() {
    assert_eq!(time2bytes(Hours::AM(9), 30), [0, 9, 3, 0]);
    assert_eq!(time2bytes(Hours::AM(12), 0), [1, 2, 0, 0]);
}

#[test]
fn time2bytes_afternoon_shifts_twelve_hours() {
    assert_eq!(time2bytes(Hours::PM(10), 5), [2, 2, 0, 5]);
    assert_eq!(time2bytes(Hours::PM(1), 59), [1, 3, 5, 9]);
}

#[test]
fn time2bytes_twenty_four_hour_form() {
    assert_eq!(time2bytes(Hours::H24(22), 36), [2, 2, 3, 6]);
    assert_eq!(time2bytes(Hours::H24(0), 1), [0, 0, 0, 1]);
}
