//! Small rules of what the views show: how a day is named relative to
//! today, how busy a day counts as, which dates label a chart, and how a
//! form field is written out.

use vstd::prelude::*;
use vstd::string::*;
use crate::text::{decimal_digits, push_char, push_decimal};
use crate::time::Day;

verus! {

/// How busy a day was.
#[derive(Debug, Clone, Copy, PartialEq, Eq, Structural)]
pub enum ActivityLevel {
    /// No set was completed.
    Idle,
    /// Up to eight sets were completed.
    Light,
    /// Nine sets or more were completed.
    Full,
}

/// How busy a day with `sets_completed` sets counts as.
pub open spec fn level_of(sets_completed: i64) -> ActivityLevel {
    if sets_completed >= 9 {
        ActivityLevel::Full
    } else if sets_completed >= 1 {
        ActivityLevel::Light
    } else {
        ActivityLevel::Idle
    }
}

/// How busy a day with `sets_completed` sets counts as.
pub fn activity_level(sets_completed: i64) -> (r: ActivityLevel)
    ensures
        r == level_of(sets_completed),
{
    if sets_completed >= 9 {
        ActivityLevel::Full
    } else if sets_completed >= 1 {
        ActivityLevel::Light
    } else {
        ActivityLevel::Idle
    }
}

/// How a day `offset` days from today is called.
pub open spec fn relative_day_text(offset: int) -> Seq<char> {
    if offset == 0 {
        "Today"@
    } else if offset == 1 {
        "Tomorrow"@
    } else if offset == -1 {
        "Yesterday"@
    } else if offset > 0 {
        "In "@ + decimal_digits(offset as nat) + " days"@
    } else {
        decimal_digits((-offset) as nat) + " days ago"@
    }
}

/// How many days `day` lies after `today`; negative if it lies before.
pub fn days_from(day: Day, today: Day) -> (offset: i64)
    ensures
        offset == day@ - today@,
{
    day.number() as i64 - today.number() as i64
}

/// How a day `offset` days from today is called.
pub fn relative_day(offset: i64) -> (out: String)
    ensures
        out@ == relative_day_text(offset as int),
{
    if offset == 0 {
        String::from_str("Today")
    } else if offset == 1 {
        String::from_str("Tomorrow")
    } else if offset == -1 {
        String::from_str("Yesterday")
    } else if offset > 0 {
        let mut out = String::from_str("In ");
        push_decimal(&mut out, offset as u64);
        out.append(" days");
        out
    } else {
        let mut out = String::new();
        let magnitude: u64 = if offset == i64::MIN {
            9_223_372_036_854_775_808
        } else {
            (-offset) as u64
        };
        push_decimal(&mut out, magnitude);
        out.append(" days ago");
        out
    }
}

/// The points whose dates label the axis of a chart.
#[derive(Debug, Clone, Copy, PartialEq, Eq, Structural)]
pub struct AxisLabels {
    pub first: usize,
    pub middle: usize,
    pub last: usize,
}

/// The points whose dates label the axis of a chart of `len` points: the
/// first, the middle one and the last. A chart of fewer than two points has
/// no labels.
pub fn label_points(len: usize) -> (r: Option<AxisLabels>)
    ensures
        r is Some <==> len >= 2,
        r is Some ==> r->0 == (AxisLabels { first: 0, middle: len / 2, last: (len - 1) as usize }),
{
    if len < 2 {
        None
    } else {
        Some(AxisLabels { first: 0, middle: len / 2, last: len - 1 })
    }
}

/// `n` times the character `ch`.
pub open spec fn repeated(ch: char, n: nat) -> Seq<char> {
    Seq::new(n, |i: int| ch)
}

/// How a form field is written out: six underscores for an empty field, a
/// dot for every character of a masked field, else the value.
pub open spec fn field_text(value: Seq<char>, mask: bool) -> Seq<char> {
    if value.len() == 0 {
        repeated('_', 6)
    } else if mask {
        repeated('•', value.len())
    } else {
        value
    }
}

/// How a form field is written out.
pub fn field_display(value: &str, mask: bool) -> (out: String)
    ensures
        out@ == field_text(value@, mask),
{
    let n = value.unicode_len();
    if n == 0 || mask {
        let (ch, count) = if n == 0 {
            ('_', 6)
        } else {
            ('•', n)
        };
        let mut out = String::new();
        let mut i: usize = 0;
        while i < count
            invariant
                i <= count,
                out@ == repeated(ch, i as nat),
            decreases count - i,
        {
            push_char(&mut out, ch);
            i = i + 1;
        }
        out
    } else {
        String::from_str(value)
    }
}

} // verus!
