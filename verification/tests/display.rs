use chrono::{Datelike, NaiveDate};
use ekman::display::{
    activity_level, days_from, field_display, label_points, relative_day, ActivityLevel,
    AxisLabels,
};
use ekman::time::Day;

fn day(y: i32, m: u32, d: u32) -> Day {
    Day::from_number(NaiveDate::from_ymd_opt(y, m, d).unwrap().num_days_from_ce()).unwrap()
}

#[test]
fn days_are_named_relative_to_today() {
    assert_eq!(relative_day(0), "Today");
    assert_eq!(relative_day(1), "Tomorrow");
    assert_eq!(relative_day(-1), "Yesterday");
    assert_eq!(relative_day(2), "In 2 days");
    assert_eq!(relative_day(-2), "2 days ago");
    assert_eq!(relative_day(365), "In 365 days");
    assert_eq!(relative_day(i64::MAX), "In 9223372036854775807 days");
    assert_eq!(relative_day(i64::MIN), "9223372036854775808 days ago");
    assert_eq!(days_from(day(2024, 6, 3), day(2024, 6, 1)), 2);
    assert_eq!(days_from(day(2024, 5, 31), day(2024, 6, 1)), -1);
    assert_eq!(days_from(day(2024, 6, 1), day(2024, 6, 1)), 0);
}

#[test]
fn a_day_counts_as_full_from_nine_sets() {
    assert_eq!(activity_level(i64::MIN), ActivityLevel::Idle);
    assert_eq!(activity_level(0), ActivityLevel::Idle);
    assert_eq!(activity_level(1), ActivityLevel::Light);
    assert_eq!(activity_level(8), ActivityLevel::Light);
    assert_eq!(activity_level(9), ActivityLevel::Full);
    assert_eq!(activity_level(i64::MAX), ActivityLevel::Full);
}

#[test]
fn first_middle_and_last_label_the_axis() {
    assert_eq!(label_points(0), None);
    assert_eq!(label_points(1), None);
    assert_eq!(label_points(2), Some(AxisLabels { first: 0, middle: 1, last: 1 }));
    assert_eq!(label_points(5), Some(AxisLabels { first: 0, middle: 2, last: 4 }));
    assert_eq!(label_points(50), Some(AxisLabels { first: 0, middle: 25, last: 49 }));
}

#[test]
fn fields_are_masked_or_padded() {
    assert_eq!(field_display("", false), "______");
    assert_eq!(field_display("", true), "______");
    assert_eq!(field_display("bob", false), "bob");
    assert_eq!(field_display("hunter2", true), "•••••••");
    assert_eq!(field_display("pä", true), "••");
}
