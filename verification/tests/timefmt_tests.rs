//! The display formatting helpers on exact values.

use subbers::timefmt::{digital_time, duration_str, u64_dec};

#[test]
fn decimal_formats_exactly() {
    assert_eq!(u64_dec(0), "0");
    assert_eq!(u64_dec(7), "7");
    assert_eq!(u64_dec(10), "10");
    assert_eq!(u64_dec(90125), "90125");
    assert_eq!(u64_dec(u64::MAX), "18446744073709551615");
}

#[test]
fn duration_formats_minutes_and_seconds() {
    assert_eq!(duration_str(0), "0m 0s");
    assert_eq!(duration_str(999), "0m 0s");
    assert_eq!(duration_str(1000), "0m 1s");
    assert_eq!(duration_str(125_000), "2m 5s");
    assert_eq!(duration_str(3_600_000), "60m 0s");
}

#[test]
fn digital_time_formats_utc_clock() {
    assert_eq!(digital_time(0), "00:00:00");
    assert_eq!(digital_time(49_530_000), "13:45:30");
    // a day later, the clock wraps
    assert_eq!(digital_time(49_530_000 + 86_400_000), "13:45:30");
    assert_eq!(digital_time(86_399_999), "23:59:59");
}
