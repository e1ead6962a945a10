//! Clock readings, calendar days and the debounce window.
//!
//! The library never reads a clock. Every operation that depends on time
//! takes the reading as an argument, so its result is a function of its
//! arguments alone.

use vstd::prelude::*;
use vstd::string::*;

verus! {

/// The debounce window in nanoseconds of the monotonic clock: one second.
pub const INPUT_TIMEOUT: u64 = 1_000_000_000;

/// The first day a [`Day`] can hold, counted from January 1 of year 1 as
/// day 1: January 1 of year -262143.
pub const MIN_DAY_NUMBER: i32 = -95_746_129;

/// The last day a [`Day`] can hold: December 31 of year 262142.
pub const MAX_DAY_NUMBER: i32 = 95_745_399;

/// The day number of January 1, 1970.
pub const EPOCH_DAY_NUMBER: i32 = 719_163;

/// Whether the debounce window has run out at `now` for a field whose last
/// accepted keystroke was at `last`. A field that was never touched, or whose
/// timer was reset, counts as run out: the next keystroke starts afresh.
pub open spec fn window_elapsed(last: Option<u64>, now: u64) -> bool {
    match last {
        None => true,
        Some(t) => now - t > INPUT_TIMEOUT,
    }
}

/// Whether there was a keystroke and the window has run out since: the
/// condition for advancing on idle.
pub open spec fn idle_since_input(last: Option<u64>, now: u64) -> bool {
    match last {
        None => false,
        Some(t) => now - t > INPUT_TIMEOUT,
    }
}

/// Decides [`window_elapsed`].
pub fn has_window_elapsed(last: Option<u64>, now: u64) -> (r: bool)
    ensures
        r == window_elapsed(last, now),
{
    match last {
        None => true,
        Some(t) => now > t && now - t > INPUT_TIMEOUT,
    }
}

/// Decides [`idle_since_input`].
pub fn is_idle_since_input(last: Option<u64>, now: u64) -> (r: bool)
    ensures
        r == idle_since_input(last, now),
{
    match last {
        None => false,
        Some(t) => now > t && now - t > INPUT_TIMEOUT,
    }
}

/// A point in UTC time: whole seconds since the start of 1970 and the
/// nanoseconds past them.
#[derive(Debug, Clone, Copy, PartialEq, Eq, Structural)]
pub struct Timestamp {
    pub secs: i64,
    pub nanos: u32,
}

impl Timestamp {
    /// Nanoseconds since the start of 1970.
    pub open spec fn total_nanos(self) -> int {
        self.secs * 1_000_000_000 + self.nanos
    }

    /// Whether `self` lies at most `days` whole days before `now`, or after it.
    pub fn within_days_before(self, now: Timestamp, days: u32) -> (r: bool)
        ensures
            r == (now.total_nanos() - self.total_nanos() <= days * 86_400_000_000_000),
    {
        let span: i128 = (days as i128) * 86_400_000_000_000;
        let a: i128 = (now.secs as i128) * 1_000_000_000 + now.nanos as i128;
        let b: i128 = (self.secs as i128) * 1_000_000_000 + self.nanos as i128;
        a - b <= span
    }
}

/// One reading of the clocks, taken together: the monotonic clock, in
/// nanoseconds from an arbitrary start, for the debounce window; UTC for
/// completion times; and how many seconds local time is ahead of UTC, for
/// local noon.
#[derive(Debug, Clone, Copy, PartialEq, Eq, Structural)]
pub struct Now {
    pub tick: u64,
    pub utc: Timestamp,
    pub offset: i32,
}

/// What `chrono` writes for the day with this number under a format
/// pattern.
pub uninterp spec fn formatted_day(number: int, pattern: Seq<char>) -> Seq<char>;

/// The pattern for year, month and day of the month, as in `2024-06-01`.
pub open spec fn iso_pattern() -> Seq<char> {
    "%Y-%m-%d"@
}

/// The pattern for short weekday, short month and day of the month, as in
/// `Sat Jun  1`.
pub open spec fn short_pattern() -> Seq<char> {
    "%a %b %e"@
}

/// The day with this number as year, month and day of the month.
pub open spec fn iso_date_text(number: int) -> Seq<char> {
    formatted_day(number, iso_pattern())
}

/// The day with this number as short weekday, short month and day of the
/// month.
pub open spec fn short_date_text(number: int) -> Seq<char> {
    formatted_day(number, short_pattern())
}

/// Formats a day with `chrono::NaiveDate::format`. Trusted: the text depends
/// on the day number and the pattern alone. The number has to lie in the
/// range of `NaiveDate`, which is the range of [`Day`], and the pattern has
/// to be one of the two above, which `chrono` takes.
#[verifier::external_body]
fn format_day(number: i32, pattern: &str) -> (out: String)
    requires
        MIN_DAY_NUMBER <= number <= MAX_DAY_NUMBER,
        pattern@ == iso_pattern() || pattern@ == short_pattern(),
    ensures
        out@ == formatted_day(number as int, pattern@),
{
    match chrono::NaiveDate::from_num_days_from_ce_opt(number) {
        Some(date) => date.format(pattern).to_string(),
        None => String::new(),
    }
}

/// A calendar day of the proleptic Gregorian calendar, held as its day
/// number: January 1 of year 1 is day 1.
#[derive(Debug, Clone, Copy, PartialEq, Eq, Structural)]
pub struct Day {
    number: i32,
}

impl View for Day {
    type V = int;

    closed spec fn view(&self) -> int {
        self.number as int
    }
}

impl Day {
    #[verifier::type_invariant]
    spec fn in_range(self) -> bool {
        MIN_DAY_NUMBER <= self.number <= MAX_DAY_NUMBER
    }

    /// The day with this number, if the calendar reaches that far.
    pub fn from_number(number: i32) -> (r: Option<Day>)
        ensures
            r is Some <==> Day::reaches(number as int),
            r is Some ==> r->0 == Day::at(number as int),
            r is Some ==> r->0@ == number,
    {
        if MIN_DAY_NUMBER <= number && number <= MAX_DAY_NUMBER {
            Some(Day { number })
        } else {
            None
        }
    }

    /// Whether the calendar reaches day `number`.
    pub open spec fn reaches(number: int) -> bool {
        MIN_DAY_NUMBER <= number <= MAX_DAY_NUMBER
    }

    /// The day with this number.
    pub closed spec fn at(number: int) -> Day {
        Day { number: number as i32 }
    }

    /// The day built from a number it reaches has that number.
    pub proof fn lemma_at(number: int)
        requires
            Day::reaches(number),
        ensures
            Day::at(number)@ == number,
    {
    }

    /// The day number.
    pub fn number(self) -> (n: i32)
        ensures
            n == self@,
            MIN_DAY_NUMBER <= n <= MAX_DAY_NUMBER,
    {
        proof {
            use_type_invariant(&self);
        }
        self.number
    }

    /// Monday is 0 and Sunday is 6. Day 1 was a Monday.
    pub open spec fn weekday_of(number: int) -> int {
        (number - 1) % 7
    }

    /// The weekday, counted from Monday as 0.
    pub fn weekday_from_monday(self) -> (w: u32)
        ensures
            w == Day::weekday_of(self@),
            w < 7,
    {
        let n: i64 = self.number as i64 - 1;
        let r: i64 = n % 7;
        if r < 0 {
            (r + 7) as u32
        } else {
            r as u32
        }
    }

    /// The day `delta` days on, if the calendar reaches that far.
    pub fn checked_add_days(self, delta: i64) -> (r: Option<Day>)
        ensures
            r is Some <==> Day::reaches(self@ + delta),
            r is Some ==> r->0 == Day::at(self@ + delta),
            r is Some ==> r->0@ == self@ + delta,
    {
        proof {
            use_type_invariant(&self);
        }
        if delta < -200_000_000 || delta > 200_000_000 {
            return None;
        }
        let n: i64 = self.number as i64 + delta;
        if (MIN_DAY_NUMBER as i64) <= n && n <= (MAX_DAY_NUMBER as i64) {
            Some(Day { number: n as i32 })
        } else {
            None
        }
    }

    /// Seconds from the start of 1970 to noon of day `number` in a time zone
    /// that is `offset` seconds ahead of UTC.
    pub open spec fn noon_secs(number: int, offset: int) -> int {
        (number - EPOCH_DAY_NUMBER) * 86_400 + 43_200 - offset
    }

    /// Local noon of this day, where local time is `offset` seconds ahead of
    /// UTC.
    pub fn noon(self, offset: i32) -> (t: Timestamp)
        ensures
            t.secs == Day::noon_secs(self@, offset as int),
            t.nanos == 0,
    {
        let d: i64 = self.number as i64 - EPOCH_DAY_NUMBER as i64;
        Timestamp { secs: d * 86_400 + 43_200 - offset as i64, nanos: 0 }
    }

    /// The day as year-month-day text.
    pub fn iso_text(self) -> (out: String)
        ensures
            out@ == iso_date_text(self@),
    {
        proof {
            use_type_invariant(&self);
        }
        format_day(self.number, "%Y-%m-%d")
    }

    /// The day as short weekday, short month and day of the month.
    pub fn short_text(self) -> (out: String)
        ensures
            out@ == short_date_text(self@),
    {
        proof {
            use_type_invariant(&self);
        }
        format_day(self.number, "%a %b %e")
    }

    /// Whether `self` comes before `other`.
    pub fn is_before(self, other: Day) -> (r: bool)
        ensures
            r == (self@ < other@),
    {
        self.number < other.number
    }

    /// Whether both are the same day.
    pub fn same_as(self, other: Day) -> (r: bool)
        ensures
            r == (self@ == other@),
            r == (self == other),
    {
        self.number == other.number
    }
}

} // verus!
