use devops_info::clock::{compute_uptime, uptime_seconds, uptime_text, Timestamp};
use devops_info::text::decimal_text;

fn at(secs: i64, nanos: u32) -> Timestamp {
    Timestamp::new(secs, nanos).unwrap()
}

#[test]
fn ninety_minutes_reads_one_hour_thirty() {
    assert_eq!(uptime_text(5400), "1 hours, 30 minutes");
    let r = compute_uptime(&at(1000, 0), &at(1000 + 5400, 0));
    assert_eq!(r.uptime_seconds, 5400);
    assert_eq!(r.uptime_human, "1 hours, 30 minutes");
    assert_eq!(r.timezone, "UTC");
}

#[test]
fn zero_elapsed_reads_zero() {
    assert_eq!(uptime_text(0), "0 hours, 0 minutes");
    let r = compute_uptime(&at(1000, 5), &at(1000, 5));
    assert_eq!(r.uptime_seconds, 0);
    assert_eq!(r.uptime_human, "0 hours, 0 minutes");
}

#[test]
fn uptime_rounds_down_partial_seconds() {
    assert_eq!(uptime_seconds(&at(10, 900_000_000), &at(12, 100_000_000)), 1);
    assert_eq!(uptime_seconds(&at(10, 0), &at(10, 999_999_999)), 0);
    assert_eq!(uptime_seconds(&at(10, 500), &at(3610, 499)), 3599);
}

#[test]
fn uptime_is_monotonic_across_requests() {
    let start = at(100, 0);
    let a = uptime_seconds(&start, &at(159, 0));
    let b = uptime_seconds(&start, &at(160, 0));
    let c = uptime_seconds(&start, &at(7300, 1));
    assert!(a <= b && b <= c);
    assert_eq!((a, b, c), (59, 60, 7200));
}

#[test]
fn clock_going_back_gives_zero_uptime() {
    assert_eq!(uptime_seconds(&at(100, 0), &at(98, 500_000_000)), 0);
    let r = compute_uptime(&at(100, 0), &at(98, 500_000_000));
    assert_eq!(r.uptime_seconds, 0);
    assert_eq!(r.uptime_human, "0 hours, 0 minutes");
    let r = compute_uptime(&at(7200, 0), &at(0, 0));
    assert_eq!(r.uptime_seconds, 0);
    assert_eq!(r.uptime_human, "0 hours, 0 minutes");
}

#[test]
fn long_uptime_text() {
    assert_eq!(uptime_text(90061), "25 hours, 1 minutes");
}

#[test]
fn decimal_text_values() {
    assert_eq!(decimal_text(0), "0");
    assert_eq!(decimal_text(3600), "3600");
    assert_eq!(decimal_text(-42), "-42");
    assert_eq!(decimal_text(i64::MAX), "9223372036854775807");
    assert_eq!(decimal_text(i64::MIN), "-9223372036854775808");
}

#[test]
fn timestamp_rejects_bad_parts() {
    assert!(Timestamp::new(0, 1_000_000_000).is_none());
    assert!(Timestamp::new(8_000_000_000_001, 0).is_none());
    assert!(Timestamp::new(-8_000_000_000_000, 999_999_999).is_some());
}
