//! Calendar dates at day granularity, and inclusive date ranges.
use chrono::Datelike;
use vstd::prelude::*;

verus! {

/// The earliest year that a parsed date can carry.
pub const MIN_YEAR: i32 = -262143;

/// The latest year that a parsed date can carry.
pub const MAX_YEAR: i32 = 262142;

pub open spec fn is_leap_year(y: int) -> bool {
    (y % 4 == 0 && y % 100 != 0) || y % 400 == 0
}

pub open spec fn days_in_month(y: int, m: int) -> int {
    if m == 2 {
        if is_leap_year(y) { 29 } else { 28 }
    } else if m == 4 || m == 6 || m == 9 || m == 11 {
        30
    } else {
        31
    }
}

/// A year, month and day that form a date of the proleptic Gregorian calendar.
pub open spec fn is_calendar_date(y: int, m: int, d: int) -> bool {
    1 <= m <= 12 && 1 <= d <= days_in_month(y, m)
}

/// A calendar day of the proleptic Gregorian calendar.
#[derive(Clone, Copy, Debug, PartialEq, Eq, Structural)]
pub struct Date {
    pub year: i32,
    pub month: u32,
    pub day: u32,
}

impl Date {
    pub open spec fn valid(self) -> bool {
        is_calendar_date(self.year as int, self.month as int, self.day as int)
    }

    /// A key that orders valid dates as the calendar does.
    pub open spec fn key(self) -> int {
        self.year * 372 + (self.month - 1) * 31 + (self.day - 1)
    }

    /// The calendar day after this one.
    pub open spec fn spec_next(self) -> Date {
        if (self.day as int) < days_in_month(self.year as int, self.month as int) {
            Date { year: self.year, month: self.month, day: (self.day + 1) as u32 }
        } else if self.month < 12 {
            Date { year: self.year, month: (self.month + 1) as u32, day: 1 }
        } else {
            Date { year: (self.year + 1) as i32, month: 1, day: 1 }
        }
    }

    pub proof fn lemma_next_is_later(self)
        requires
            self.valid(),
            self.year < i32::MAX,
        ensures
            self.spec_next().valid(),
            self.spec_next().key() > self.key(),
    {
    }

    fn is_leap(year: i32) -> (r: bool)
        ensures
            r == is_leap_year(year as int),
    {
        // Shift by a multiple of 400 so that the remainders are taken of a
        // non-negative number.
        let u: u64 = (year as i64 + 2147484000i64) as u64;
        assert(u as int == year as int + 400 * 5368710);
        (u % 4 == 0 && u % 100 != 0) || u % 400 == 0
    }

    pub fn month_length(year: i32, month: u32) -> (r: u32)
        ensures
            r as int == days_in_month(year as int, month as int),
    {
        if month == 2 {
            if Date::is_leap(year) { 29 } else { 28 }
        } else if month == 4 || month == 6 || month == 9 || month == 11 {
            30
        } else {
            31
        }
    }

    /// The calendar day after `self`.
    pub fn next(&self) -> (r: Date)
        requires
            self.valid(),
            self.year < i32::MAX,
        ensures
            r == self.spec_next(),
            r.valid(),
            r.key() > self.key(),
    {
        proof { self.lemma_next_is_later(); }
        if self.day < Date::month_length(self.year, self.month) {
            Date { year: self.year, month: self.month, day: self.day + 1 }
        } else if self.month < 12 {
            Date { year: self.year, month: self.month + 1, day: 1 }
        } else {
            Date { year: self.year + 1, month: 1, day: 1 }
        }
    }

    /// Whether the fields form a calendar date.
    pub fn is_valid(&self) -> (r: bool)
        ensures
            r == self.valid(),
    {
        1 <= self.month && self.month <= 12 && 1 <= self.day
            && self.day <= Date::month_length(self.year, self.month)
    }

    /// Whether `self` falls on or before `other` in the calendar.
    pub fn on_or_before(&self, other: &Date) -> (r: bool)
        requires
            self.valid(),
            other.valid(),
        ensures
            r == (self.key() <= other.key()),
    {
        if self.year != other.year {
            self.year < other.year
        } else if self.month != other.month {
            self.month < other.month
        } else {
            self.day <= other.day
        }
    }
}

/// What chrono's `NaiveDate::parse_from_str(s, "%Y-%m-%d")` makes of `s`, as
/// year, month and day.
pub uninterp spec fn ymd_parsed_from(s: Seq<char>) -> Option<(i32, u32, u32)>;

/// Relies on chrono's `NaiveDate::parse_from_str` with the format `%Y-%m-%d`:
/// its result depends on the text alone, and a `NaiveDate` is always a
/// calendar date with a year from `MIN_YEAR` to `MAX_YEAR`.
#[verifier::external_body]
fn parse_ymd(s: &str) -> (r: Option<(i32, u32, u32)>)
    ensures
        r == ymd_parsed_from(s@),
        r matches Some(t) ==> is_calendar_date(t.0 as int, t.1 as int, t.2 as int)
            && MIN_YEAR <= t.0 <= MAX_YEAR,
{
    match chrono::NaiveDate::parse_from_str(s, "%Y-%m-%d") {
        Ok(d) => Some((d.year(), d.month(), d.day())),
        Err(_) => None,
    }
}

/// A date whose year lies in the range that parsing yields.
pub open spec fn in_year_range(d: Date) -> bool {
    d.valid() && MIN_YEAR <= d.year <= MAX_YEAR
}

pub open spec fn date_of(t: (i32, u32, u32)) -> Date {
    Date { year: t.0, month: t.1, day: t.2 }
}

/// Parses a date written `YYYY-MM-DD`; `None` where the text is no such date.
pub fn parse_date(s: &str) -> (r: Option<Date>)
    ensures
        r == (match ymd_parsed_from(s@) {
            Some(t) => Some(date_of(t)),
            None => None,
        }),
        r matches Some(d) ==> in_year_range(d),
{
    match parse_ymd(s) {
        Some(t) => Some(Date { year: t.0, month: t.1, day: t.2 }),
        None => None,
    }
}

/// Why a date range could not be formed.
#[derive(Clone, Copy, Debug, PartialEq, Eq, Structural)]
pub enum RangeError {
    /// The start date is not a `YYYY-MM-DD` date.
    UnparsableFrom,
    /// The end date is given and is not a `YYYY-MM-DD` date.
    UnparsableTo,
    /// The end date falls before the start date.
    ToBeforeFrom,
}

/// An inclusive range of calendar days.
#[derive(Clone, Copy, Debug, PartialEq, Eq, Structural)]
pub struct DateRange {
    pub from: Date,
    pub to: Date,
}

/// The range that a start date and an optional end date describe: one day
/// past the start where no end is given.
pub open spec fn range_spec(from: Date, to: Option<Date>) -> Result<DateRange, RangeError> {
    let end = match to {
        Some(t) => t,
        None => from.spec_next(),
    };
    if from.key() <= end.key() {
        Ok(DateRange { from, to: end })
    } else {
        Err(RangeError::ToBeforeFrom)
    }
}

/// What parsing a start text and an optional end text yields.
pub open spec fn parse_range_spec(from: Seq<char>, to: Option<Seq<char>>) -> Result<DateRange, RangeError> {
    match ymd_parsed_from(from) {
        None => Err(RangeError::UnparsableFrom),
        Some(f) => match to {
            None => range_spec(date_of(f), None),
            Some(ts) => match ymd_parsed_from(ts) {
                None => Err(RangeError::UnparsableTo),
                Some(t) => range_spec(date_of(f), Some(date_of(t))),
            },
        },
    }
}

pub open spec fn opt_view(s: Option<&str>) -> Option<Seq<char>> {
    match s {
        Some(t) => Some(t@),
        None => None,
    }
}

/// The days from `from` to `to`, both included, in calendar order.
// One day on moves the key by at most 31, so the measure stays non-negative.
pub open spec fn days_between(from: Date, to: Date) -> Seq<Date>
    decreases to.key() + 31 - from.key() when from.valid() && to.valid() && to.year < i32::MAX - 1
{
    if from.key() > to.key() {
        Seq::empty()
    } else {
        seq![from] + days_between(from.spec_next(), to)
    }
}

impl DateRange {
    /// Both ends are calendar dates of the parsed year range, or the year
    /// after it.
    pub open spec fn wf(self) -> bool {
        &&& self.from.valid()
        &&& self.to.valid()
        &&& MIN_YEAR <= self.from.year <= MAX_YEAR + 1
        &&& MIN_YEAR <= self.to.year <= MAX_YEAR + 1
    }

    /// The days of the range, in calendar order.
    pub open spec fn days(self) -> Seq<Date> {
        days_between(self.from, self.to)
    }

    /// Forms the range from `from` to `to`, or to the day after `from` where
    /// `to` is `None`; an end before the start is refused.
    pub fn new(from: Date, to: Option<Date>) -> (r: Result<DateRange, RangeError>)
        requires
            in_year_range(from),
            to matches Some(t) ==> in_year_range(t),
        ensures
            r == range_spec(from, to),
            r matches Ok(rg) ==> rg.wf(),
    {
        let end = match to {
            Some(t) => t,
            None => from.next(),
        };
        if from.on_or_before(&end) {
            Ok(DateRange { from, to: end })
        } else {
            Err(RangeError::ToBeforeFrom)
        }
    }

    /// Parses a start date and an optional end date, both `YYYY-MM-DD`.
    pub fn parse(from: &str, to: Option<&str>) -> (r: Result<DateRange, RangeError>)
        ensures
            r == parse_range_spec(from@, opt_view(to)),
            r matches Ok(rg) ==> rg.wf(),
    {
        let f = match parse_date(from) {
            Some(d) => d,
            None => return Err(RangeError::UnparsableFrom),
        };
        match to {
            None => DateRange::new(f, None),
            Some(ts) => match parse_date(ts) {
                Some(t) => DateRange::new(f, Some(t)),
                None => Err(RangeError::UnparsableTo),
            },
        }
    }
}

/// Parsing keeps the start date as written: where `x` names a date, as every
/// parsed text does, the range starts on exactly that date, with no shift,
/// and without an end it covers that day and the next.
pub proof fn lemma_parse_keeps_from(x: Seq<char>, to: Option<Seq<char>>)
    requires
        ymd_parsed_from(x) matches Some(t) && in_year_range(date_of(t)),
    ensures
        parse_range_spec(x, to) matches Ok(rg) ==> rg.from == date_of(ymd_parsed_from(x)->Some_0),
        parse_range_spec(x, None) == Ok::<DateRange, RangeError>(DateRange {
            from: date_of(ymd_parsed_from(x)->Some_0),
            to: date_of(ymd_parsed_from(x)->Some_0).spec_next(),
        }),
{
    date_of(ymd_parsed_from(x)->Some_0).lemma_next_is_later();
}

/// The dates of `days` come in strictly ascending calendar order.
pub open spec fn strictly_ascending(days: Seq<Date>) -> bool {
    forall|i: int, j: int| 0 <= i < j < days.len() ==> (#[trigger] days[i]).key() < (#[trigger] days[j]).key()
}

/// The days between two dates come in ascending order, from the first on.
pub proof fn lemma_days_ascending(from: Date, to: Date)
    requires
        from.valid(),
        to.valid(),
        to.year < i32::MAX - 1,
    ensures
        strictly_ascending(days_between(from, to)),
        forall|i: int| 0 <= i < days_between(from, to).len()
            ==> from.key() <= (#[trigger] days_between(from, to)[i]).key(),
    decreases to.key() + 31 - from.key(),
{
    if from.key() <= to.key() {
        from.lemma_next_is_later();
        let next = from.spec_next();
        lemma_days_ascending(next, to);
        let rest = days_between(next, to);
        let all = days_between(from, to);
        assert(all == seq![from] + rest);
        assert forall|i: int| 0 <= i < all.len() implies from.key() <= (#[trigger] all[i]).key() by {
            if i > 0 {
                assert(all[i] == rest[i - 1]);
            }
        }
        assert forall|i: int, j: int| 0 <= i < j < all.len()
            implies (#[trigger] all[i]).key() < (#[trigger] all[j]).key() by {
            assert(all[j] == rest[j - 1]);
            if i > 0 {
                assert(all[i] == rest[i - 1]);
            }
        }
    }
}

} // verus!
