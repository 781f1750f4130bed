use onetime_downloader::time_provider::{
    timestamp, FixedTimeProvider, SystemTimeProvider, TimeProvider,
};

#[test]
fn fixed_clock_reports_what_it_was_set_to() {
    let mut clock = FixedTimeProvider { fixed_unix_ts_ms: 1000 };
    assert_eq!(clock.unix_ts_ms(), 1000);
    clock.set_fixed_unix_ts_ms(2000);
    assert_eq!(clock.unix_ts_ms(), 2000);
    assert_eq!(clock.unix_ts_ms(), 2000);
    clock.set_fixed_unix_ts_ms(-5);
    assert_eq!(clock.unix_ts_ms(), -5);
}

#[test]
fn timestamp_counts_milliseconds() {
    assert_eq!(timestamp(true, 0, 0), 0);
    assert_eq!(timestamp(true, 1, 1), 1001);
    assert_eq!(timestamp(true, 1_600_000_000, 123), 1_600_000_000_123);
    assert_eq!(timestamp(false, 1, 1), -1001);
    assert_eq!(timestamp(false, 0, 0), 0);
}

#[test]
fn timestamp_stays_in_range() {
    assert_eq!(timestamp(true, 9_223_372_036_854_775, 807), i64::MAX);
    assert_eq!(timestamp(true, 9_223_372_036_854_775, 806), i64::MAX - 1);
    assert_eq!(timestamp(true, 9_223_372_036_854_775, 808), i64::MAX);
    assert_eq!(timestamp(true, u64::MAX, 999), i64::MAX);
    assert_eq!(timestamp(false, 9_223_372_036_854_775, 807), -i64::MAX);
    assert_eq!(timestamp(false, 9_223_372_036_854_775, 808), i64::MIN);
    assert_eq!(timestamp(false, u64::MAX, 999), i64::MIN);
}

#[test]
fn system_clock_is_past_the_year_2020() {
    let clock = SystemTimeProvider {};
    let first = clock.unix_ts_ms();
    assert!(first > 1_577_836_800_000);
    assert!(first < 32_503_680_000_000);
}
