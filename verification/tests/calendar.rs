use tax_bucket::{
    fiscal_year_from_ts, is_leap_year, timestamp_to_month, timestamp_to_year,
    DEFAULT_FISCAL_START_MONTH, MAX_TIMESTAMP,
};

const DAY: u64 = 86_400;

#[test]
fn leap_years_follow_the_gregorian_rule() {
    assert!(is_leap_year(2024));
    assert!(is_leap_year(2000));
    assert!(is_leap_year(0));
    assert!(!is_leap_year(1900));
    assert!(!is_leap_year(2023));
    assert!(!is_leap_year(2100));
}

#[test]
fn years_turn_at_midnight_of_new_years_day() {
    assert_eq!(timestamp_to_year(0), 1970);
    assert_eq!(timestamp_to_year(365 * DAY - 1), 1970);
    assert_eq!(timestamp_to_year(365 * DAY), 1971);
    assert_eq!(timestamp_to_year(951_782_400), 2000);
    assert_eq!(timestamp_to_year(1_704_067_199), 2023);
    assert_eq!(timestamp_to_year(1_704_067_200), 2024);
    assert_eq!(timestamp_to_year(4_102_444_800), 2100);
}

#[test]
fn months_turn_at_midnight_of_their_first_day() {
    assert_eq!(timestamp_to_month(0), 1);
    assert_eq!(timestamp_to_month(31 * DAY - 1), 1);
    assert_eq!(timestamp_to_month(31 * DAY), 2);
    assert_eq!(timestamp_to_month(59 * DAY), 3);
    // 29 February 2024 and the day after it.
    assert_eq!(timestamp_to_month(1_709_164_800), 2);
    assert_eq!(timestamp_to_month(1_709_251_200), 3);
    // 31 December 2024.
    assert_eq!(timestamp_to_month(1_735_689_599), 12);
    // 28 February 2100 is followed by 1 March.
    assert_eq!(timestamp_to_month(4_107_456_000), 2);
    assert_eq!(timestamp_to_month(4_107_542_400), 3);
}

#[test]
fn months_fill_a_leap_year() {
    let lengths = [31u64, 29, 31, 30, 31, 30, 31, 31, 30, 31, 30, 31];
    let mut start: u64 = 1_704_067_200;
    let mut month: u32 = 1;
    for days in lengths {
        assert_eq!(timestamp_to_month(start), month);
        start += days * DAY;
        assert_eq!(timestamp_to_month(start - 1), month);
        month += 1;
    }
    assert_eq!(timestamp_to_year(start), 2025);
}

#[test]
fn april_start_splits_the_calendar_year() {
    // 1 April 2024 to 31 March 2025.
    assert_eq!(fiscal_year_from_ts(1_711_929_600, 4), 2024);
    assert_eq!(fiscal_year_from_ts(1_743_465_599, 4), 2024);
    assert_eq!(fiscal_year_from_ts(1_743_465_600, 4), 2025);
    // 1 April 2023 to 31 March 2024.
    assert_eq!(fiscal_year_from_ts(1_680_307_200, 4), 2023);
    assert_eq!(fiscal_year_from_ts(1_711_929_599, 4), 2023);
    assert_eq!(fiscal_year_from_ts(1_680_307_199, 4), 2022);
}

#[test]
fn first_fiscal_year_may_begin_before_1970() {
    assert_eq!(fiscal_year_from_ts(0, 4), 1969);
    assert_eq!(fiscal_year_from_ts(0, 12), 1969);
}

#[test]
fn january_start_is_the_calendar_year() {
    for ts in [0, 1_704_067_199, 1_704_067_200, 1_735_689_599] {
        assert_eq!(
            fiscal_year_from_ts(ts, DEFAULT_FISCAL_START_MONTH),
            timestamp_to_year(ts) as u64
        );
    }
}

#[test]
fn start_months_outside_the_year_are_taken_as_they_are() {
    assert_eq!(fiscal_year_from_ts(1_704_067_200, 0), 2024);
    assert_eq!(fiscal_year_from_ts(1_735_689_599, 13), 2023);
}

#[test]
fn years_follow_time() {
    let mut last_year: u32 = 0;
    let mut last_fiscal: u64 = 0;
    let mut ts: u64 = 0;
    while ts < 4_000_000_000 {
        let year = timestamp_to_year(ts);
        let fiscal = fiscal_year_from_ts(ts, 10);
        assert!(last_year <= year);
        assert!(last_fiscal <= fiscal);
        last_year = year;
        last_fiscal = fiscal;
        ts += 20 * DAY;
    }
    assert_eq!(last_year, 2096);
}

#[test]
fn distant_years_are_reached() {
    // A hundred thousand years ahead.
    assert_eq!(timestamp_to_year(3_155_695_200_000), 101_970);
}

#[test]
fn last_timestamp_ends_the_last_year() {
    // Days from 1 January 1970 to the end of the year `u32::MAX`.
    let last = u32::MAX as u64;
    let leap_days = last / 4 - last / 100 + last / 400 - (1969 / 4 - 1969 / 100 + 1969 / 400);
    let days = 365 * (last - 1969) + leap_days;
    assert_eq!(MAX_TIMESTAMP, days * DAY - 1);
}
