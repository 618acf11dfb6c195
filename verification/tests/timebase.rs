use avio_core::timebase::{ms_to_timestamp, timestamp_to_ms, RationalValue};

fn tb(numerator: i32, denominator: i32) -> RationalValue {
    RationalValue { numerator, denominator }
}

#[test]
fn converts_whole_frames_to_ms() {
    // One tick of a 25 fps time base is 40 ms.
    assert_eq!(timestamp_to_ms(1, tb(1, 25)), 40);
    assert_eq!(timestamp_to_ms(25, tb(1, 25)), 1000);
    // One second of a 90 kHz MPEG time base.
    assert_eq!(timestamp_to_ms(90000, tb(1, 90000)), 1000);
    assert_eq!(timestamp_to_ms(0, tb(1, 90000)), 0);
}

#[test]
fn rounds_to_nearest_away_from_zero() {
    // 1 tick at 1/2000 s is 0.5 ms: halfway rounds away from zero.
    assert_eq!(timestamp_to_ms(1, tb(1, 2000)), 1);
    assert_eq!(timestamp_to_ms(-1, tb(1, 2000)), -1);
    // 1 tick at 1/3 s is 333.33 ms: rounds down.
    assert_eq!(timestamp_to_ms(1, tb(1, 3)), 333);
}

#[test]
fn negative_timestamps_are_symmetric() {
    assert_eq!(timestamp_to_ms(-25, tb(1, 25)), -1000);
    assert_eq!(ms_to_timestamp(-1000, tb(1, 25)), -25);
}

#[test]
fn degenerate_time_base_yields_zero() {
    assert_eq!(timestamp_to_ms(77, tb(1, 0)), 0);
    assert_eq!(timestamp_to_ms(77, tb(0, 1)), 0);
    assert_eq!(timestamp_to_ms(77, tb(-1, 25)), 0);
    assert_eq!(ms_to_timestamp(77, tb(1, 0)), 0);
}

#[test]
fn ms_to_timestamp_inverts_whole_values() {
    assert_eq!(ms_to_timestamp(1000, tb(1, 90000)), 90000);
    assert_eq!(ms_to_timestamp(40, tb(1, 25)), 1);
    // Round trip through the time base loses at most one tick.
    let unit = tb(1, 25);
    for ms in [0i64, 39, 40, 41, 999, 1000, 123456] {
        let ts = ms_to_timestamp(ms, unit);
        let back = timestamp_to_ms(ts, unit);
        assert!((back - ms).abs() <= 40, "ms={ms} back={back}");
    }
}

#[test]
fn overflowing_conversion_saturates() {
    // A huge timestamp in a coarse time base cannot be represented in ms.
    assert_eq!(timestamp_to_ms(i64::MAX, tb(1000000, 1)), i64::MIN);
    assert_eq!(timestamp_to_ms(i64::MIN, tb(1000000, 1)), i64::MIN);
}
