use chrono::{Datelike, NaiveDate, TimeZone, Utc};
use ekman::time::{
    has_window_elapsed, is_idle_since_input, Day, Timestamp, EPOCH_DAY_NUMBER, INPUT_TIMEOUT,
    MAX_DAY_NUMBER, MIN_DAY_NUMBER,
};

fn day(y: i32, m: u32, d: u32) -> Day {
    Day::from_number(NaiveDate::from_ymd_opt(y, m, d).unwrap().num_days_from_ce()).unwrap()
}

#[test]
fn the_range_of_days_is_that_of_the_calendar() {
    assert_eq!(MIN_DAY_NUMBER, NaiveDate::MIN.num_days_from_ce());
    assert_eq!(MAX_DAY_NUMBER, NaiveDate::MAX.num_days_from_ce());
    assert_eq!(EPOCH_DAY_NUMBER, NaiveDate::from_ymd_opt(1970, 1, 1).unwrap().num_days_from_ce());
    assert!(Day::from_number(MIN_DAY_NUMBER).is_some());
    assert!(Day::from_number(MAX_DAY_NUMBER).is_some());
    assert!(Day::from_number(MIN_DAY_NUMBER - 1).is_none());
    assert!(Day::from_number(MAX_DAY_NUMBER + 1).is_none());
    assert!(NaiveDate::from_num_days_from_ce_opt(MIN_DAY_NUMBER - 1).is_none());
    assert!(NaiveDate::from_num_days_from_ce_opt(MAX_DAY_NUMBER + 1).is_none());
}

#[test]
fn weekdays_count_from_monday() {
    assert_eq!(day(2024, 6, 1).weekday_from_monday(), 5);
    assert_eq!(day(2024, 6, 3).weekday_from_monday(), 0);
    assert_eq!(day(1, 1, 1).weekday_from_monday(), 0);
    for number in [MIN_DAY_NUMBER, -1, 0, 1, 719_163, 739_038, MAX_DAY_NUMBER] {
        let date = NaiveDate::from_num_days_from_ce_opt(number).unwrap();
        assert_eq!(
            Day::from_number(number).unwrap().weekday_from_monday(),
            date.weekday().num_days_from_monday()
        );
    }
}

#[test]
fn noon_is_noon_utc_of_the_day() {
    for (y, m, d) in [(1970, 1, 1), (2024, 6, 1), (1969, 12, 31), (1, 1, 1), (9999, 12, 31)] {
        let noon = Utc.with_ymd_and_hms(y, m, d, 12, 0, 0).unwrap();
        assert_eq!(day(y, m, d).noon(0), Timestamp { secs: noon.timestamp(), nanos: 0 });
    }
    assert_eq!(day(1970, 1, 1).noon(0).secs, 43_200);
    let east = chrono::FixedOffset::east_opt(2 * 3600).unwrap();
    let local = east.with_ymd_and_hms(2024, 6, 1, 12, 0, 0).unwrap();
    assert_eq!(day(2024, 6, 1).noon(2 * 3600).secs, local.timestamp());
    let west = chrono::FixedOffset::west_opt(5 * 3600).unwrap();
    let local = west.with_ymd_and_hms(2024, 6, 1, 12, 0, 0).unwrap();
    assert_eq!(day(2024, 6, 1).noon(-5 * 3600).secs, local.timestamp());
    assert_eq!(day(2024, 6, 1).noon(i32::MIN).nanos, 0);
}

#[test]
fn days_are_written_as_year_month_day() {
    assert_eq!(day(2024, 6, 1).iso_text(), "2024-06-01");
    assert_eq!(day(1999, 12, 31).iso_text(), "1999-12-31");
    assert_eq!(day(987, 1, 9).iso_text(), "0987-01-09");
}

#[test]
fn days_are_written_short_for_the_status_line() {
    assert_eq!(day(2024, 6, 1).short_text(), "Sat Jun  1");
    assert_eq!(day(2024, 12, 25).short_text(), "Wed Dec 25");
}

#[test]
fn adding_days_stays_within_the_calendar() {
    assert_eq!(day(2024, 2, 28).checked_add_days(2), Some(day(2024, 3, 1)));
    assert_eq!(day(2024, 1, 1).checked_add_days(-1), Some(day(2023, 12, 31)));
    assert_eq!(day(2024, 1, 1).checked_add_days(0), Some(day(2024, 1, 1)));
    assert!(Day::from_number(MAX_DAY_NUMBER).unwrap().checked_add_days(1).is_none());
    assert!(Day::from_number(MIN_DAY_NUMBER).unwrap().checked_add_days(-1).is_none());
    assert!(day(2024, 1, 1).checked_add_days(i64::MAX).is_none());
    assert!(day(2024, 1, 1).checked_add_days(i64::MIN).is_none());
}

#[test]
fn days_compare_by_their_number() {
    assert!(day(2024, 1, 1).is_before(day(2024, 1, 2)));
    assert!(!day(2024, 1, 2).is_before(day(2024, 1, 2)));
    assert!(day(2024, 1, 2).same_as(day(2024, 1, 2)));
    assert!(!day(2024, 1, 2).same_as(day(2024, 1, 3)));
    assert_eq!(day(2024, 6, 1).number(), 739_038);
}

#[test]
fn the_window_runs_out_after_one_second() {
    assert_eq!(INPUT_TIMEOUT, 1_000_000_000);
    assert!(has_window_elapsed(None, 0));
    assert!(!has_window_elapsed(Some(5), 5));
    assert!(!has_window_elapsed(Some(5), 5 + INPUT_TIMEOUT));
    assert!(has_window_elapsed(Some(5), 6 + INPUT_TIMEOUT));
    assert!(!has_window_elapsed(Some(5), 0));
    assert!(has_window_elapsed(Some(0), u64::MAX));
    assert!(!is_idle_since_input(None, u64::MAX));
    assert!(!is_idle_since_input(Some(5), 5 + INPUT_TIMEOUT));
    assert!(is_idle_since_input(Some(5), 6 + INPUT_TIMEOUT));
}

#[test]
fn a_span_of_days_is_measured_to_the_nanosecond() {
    let then = Timestamp { secs: 1_000_000, nanos: 500 };
    let exactly = Timestamp { secs: 1_000_000 + 90 * 86_400, nanos: 500 };
    let just_over = Timestamp { secs: 1_000_000 + 90 * 86_400, nanos: 501 };
    assert!(then.within_days_before(exactly, 90));
    assert!(!then.within_days_before(just_over, 90));
    assert!(exactly.within_days_before(then, 90));
    assert!(Timestamp { secs: i64::MIN, nanos: 0 }
        .within_days_before(Timestamp { secs: i64::MIN, nanos: 0 }, 0));
    assert!(!Timestamp { secs: i64::MIN, nanos: 0 }
        .within_days_before(Timestamp { secs: i64::MAX, nanos: 999_999_999 }, u32::MAX));
}
