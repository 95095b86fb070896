use fs_ai::clock::{read_clock, timestamp_for, utc_now, ClockReading};

#[test]
fn epoch_and_fractions() {
    let r = ClockReading { before_epoch: false, secs: 0, nanos: 0 };
    assert_eq!(timestamp_for(&r), "1970-01-01T00:00:00+00:00");
    let r = ClockReading { before_epoch: false, secs: 1_714_557_600, nanos: 500_000_000 };
    assert_eq!(timestamp_for(&r), "2024-05-01T10:00:00.500+00:00");
}

#[test]
fn before_the_epoch_is_written_too() {
    let r = ClockReading { before_epoch: true, secs: 1, nanos: 0 };
    assert_eq!(timestamp_for(&r), "1969-12-31T23:59:59+00:00");
    let r = ClockReading { before_epoch: true, secs: 0, nanos: 250_000_000 };
    assert_eq!(timestamp_for(&r), "1969-12-31T23:59:59.750+00:00");
}

#[test]
fn unrepresentable_readings_give_an_empty_stamp() {
    let r = ClockReading { before_epoch: false, secs: u64::MAX, nanos: 0 };
    assert_eq!(timestamp_for(&r), "");
    let r = ClockReading { before_epoch: false, secs: 9_000_000_000_000_000, nanos: 0 };
    assert_eq!(timestamp_for(&r), "");
}

#[test]
fn now_is_a_utc_stamp() {
    assert!(read_clock().nanos < 1_000_000_000);
    let ts = utc_now();
    assert!(ts.len() >= 25);
    assert!(ts.ends_with("+00:00"));
}
