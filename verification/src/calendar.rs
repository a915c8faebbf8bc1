//! Dates of the proleptic Gregorian calendar.
//!
//! `CalendarDate` is the mathematical model; `LocalDate` is the executable
//! value, which always holds a day that exists, within the years
//! `MIN_YEAR..=MAX_YEAR`.

use vstd::prelude::*;

verus! {

/// A year, month and day as mathematical integers. Not every value is a day
/// that exists: see `is_calendar_date`.
pub struct CalendarDate {
    pub year: int,
    pub month: int,
    pub day: int,
}

/// The first year a `LocalDate` can hold.
pub const MIN_YEAR: i32 = -262143;

/// The last year a `LocalDate` can hold.
pub const MAX_YEAR: i32 = 262142;

/// Every fourth year is a leap year, except the centuries that are not
/// multiples of 400. Year 0 exists and is a leap year.
pub open spec fn is_leap_year(year: int) -> bool {
    year % 4 == 0 && (year % 100 != 0 || year % 400 == 0)
}

/// The number of days of `month` in `year`, for `month` in `1..=12`; 31 for
/// any other number.
pub open spec fn days_in_month(year: int, month: int) -> int {
    if month == 2 {
        if is_leap_year(year) {
            29
        } else {
            28
        }
    } else if month == 4 || month == 6 || month == 9 || month == 11 {
        30
    } else {
        31
    }
}

/// Whether `d` names a day that exists in the calendar.
pub open spec fn is_calendar_date(d: CalendarDate) -> bool {
    &&& 1 <= d.month <= 12
    &&& 1 <= d.day <= days_in_month(d.year, d.month)
}

/// Whether `d` exists and lies within the years a `LocalDate` can hold.
pub open spec fn representable(d: CalendarDate) -> bool {
    &&& is_calendar_date(d)
    &&& MIN_YEAR <= d.year <= MAX_YEAR
}

/// The day after `d`.
pub open spec fn next_day(d: CalendarDate) -> CalendarDate {
    if d.day < days_in_month(d.year, d.month) {
        CalendarDate { year: d.year, month: d.month, day: d.day + 1 }
    } else if d.month < 12 {
        CalendarDate { year: d.year, month: d.month + 1, day: 1 }
    } else {
        CalendarDate { year: d.year + 1, month: 1, day: 1 }
    }
}

/// The day that comes `n` days after `d`.
pub open spec fn plus_days(d: CalendarDate, n: nat) -> CalendarDate
    decreases n,
{
    if n == 0 {
        d
    } else {
        next_day(plus_days(d, (n - 1) as nat))
    }
}

/// The number of days in the years before `year`, counted from year 1.
pub open spec fn days_before_year(year: int) -> int {
    let p = year - 1;
    365 * p + p / 4 - p / 100 + p / 400
}

/// The number of days of `year` that lie before the first of `month`.
pub open spec fn days_before_month(year: int, month: int) -> int
    decreases month,
{
    if month <= 1 {
        0
    } else {
        days_before_month(year, month - 1) + days_in_month(year, month - 1)
    }
}

/// The position of `d` in the calendar: 1 January of year 1 is day 1.
pub open spec fn day_number(d: CalendarDate) -> int {
    days_before_year(d.year) + days_before_month(d.year, d.month) + d.day
}

/// The day of the week of `d`, counted from Sunday: 0 is Sunday, 6 is
/// Saturday. Day 1 of the calendar is a Monday.
pub open spec fn weekday_from_sunday(d: CalendarDate) -> int {
    day_number(d) % 7
}

/// Whether `a` comes before `b`, reading year, then month, then day.
pub open spec fn precedes(a: CalendarDate, b: CalendarDate) -> bool {
    ||| a.year < b.year
    ||| (a.year == b.year && a.month < b.month)
    ||| (a.year == b.year && a.month == b.month && a.day < b.day)
}

/// The number of days of `year`.
pub open spec fn days_in_year(year: int) -> int {
    if is_leap_year(year) {
        366
    } else {
        365
    }
}

/// The count of days before a year grows by the days of the year from one
/// year to the next.
pub proof fn lemma_year_length(year: int)
    ensures
        days_before_year(year + 1) == days_before_year(year) + days_in_year(year),
{
}

/// The months of a year hold all its days: as many days lie before the
/// month after December as the year has.
pub proof fn lemma_months_fill_year(year: int)
    ensures
        days_before_month(year, 1) == 0,
        days_before_month(year, 13) == days_in_year(year),
{
    reveal_with_fuel(days_before_month, 14);
}

/// The days before a month grow with the month, and a whole year's months
/// hold all its days.
pub proof fn lemma_days_before_month_grows(year: int, earlier: int, later: int)
    requires
        1 <= earlier <= later <= 13,
    ensures
        days_before_month(year, earlier) <= days_before_month(year, later),
        earlier < later ==> days_before_month(year, earlier) + days_in_month(year, earlier)
            <= days_before_month(year, later),
    decreases later - earlier,
{
    if earlier < later {
        lemma_days_before_month_grows(year, earlier, later - 1);
    }
}

/// The day after a day that exists exists, is the next in the count of days,
/// and falls on the next day of the week.
pub proof fn lemma_next_day(d: CalendarDate)
    requires
        is_calendar_date(d),
    ensures
        is_calendar_date(next_day(d)),
        day_number(next_day(d)) == day_number(d) + 1,
        weekday_from_sunday(next_day(d)) == (weekday_from_sunday(d) + 1) % 7,
{
    if d.day < days_in_month(d.year, d.month) {
    } else if d.month < 12 {
        assert(days_before_month(d.year, d.month + 1) == days_before_month(d.year, d.month)
            + days_in_month(d.year, d.month));
    } else {
        lemma_year_length(d.year);
        lemma_months_fill_year(d.year);
        lemma_months_fill_year(d.year + 1);
        assert(days_before_month(d.year, 13) == days_before_month(d.year, 12) + 31);
    }
}

/// The day `n` days after a day that exists exists, `n` places further in the
/// count of days, and `n` days of the week further.
pub proof fn lemma_plus_days(d: CalendarDate, n: nat)
    requires
        is_calendar_date(d),
    ensures
        is_calendar_date(plus_days(d, n)),
        day_number(plus_days(d, n)) == day_number(d) + n,
        weekday_from_sunday(plus_days(d, n)) == (weekday_from_sunday(d) + n) % 7,
    decreases n,
{
    if n > 0 {
        lemma_plus_days(d, (n - 1) as nat);
        lemma_next_day(plus_days(d, (n - 1) as nat));
    }
}

/// Of two days that exist, the one that reads earlier comes earlier in the
/// count of days.
pub proof fn lemma_day_number_orders(a: CalendarDate, b: CalendarDate)
    requires
        is_calendar_date(a),
        is_calendar_date(b),
        precedes(a, b),
    ensures
        day_number(a) < day_number(b),
{
    lemma_days_before_month_grows(a.year, a.month, 13);
    lemma_days_before_month_grows(b.year, 1, b.month);
    lemma_months_fill_year(a.year);
    lemma_months_fill_year(b.year);
    if a.year < b.year {
        lemma_year_length(a.year);
        lemma_days_before_year_grows(a.year + 1, b.year);
    } else if a.month < b.month {
        lemma_days_before_month_grows(a.year, a.month, b.month);
    }
}

/// The count of days before a year grows with the year.
pub proof fn lemma_days_before_year_grows(earlier: int, later: int)
    requires
        earlier <= later,
    ensures
        days_before_year(earlier) <= days_before_year(later),
    decreases later - earlier,
{
    if earlier < later {
        lemma_days_before_year_grows(earlier, later - 1);
        lemma_year_length(later - 1);
    }
}

/// No two days that exist share a place in the count of days.
pub proof fn lemma_day_number_is_one_to_one(a: CalendarDate, b: CalendarDate)
    requires
        is_calendar_date(a),
        is_calendar_date(b),
        day_number(a) == day_number(b),
    ensures
        a == b,
{
    if precedes(a, b) {
        lemma_day_number_orders(a, b);
    } else if precedes(b, a) {
        lemma_day_number_orders(b, a);
    }
}

/// The last day of a week that starts on `d`: six days on, in the same month
/// where the month is long enough, else carried into the next month, and from
/// December into January of the next year.
pub open spec fn week_end(d: CalendarDate) -> CalendarDate {
    let length = days_in_month(d.year, d.month);
    if d.day + 6 <= length {
        CalendarDate { year: d.year, month: d.month, day: d.day + 6 }
    } else if d.month < 12 {
        CalendarDate { year: d.year, month: d.month + 1, day: d.day + 6 - length }
    } else {
        CalendarDate { year: d.year + 1, month: 1, day: d.day + 6 - length }
    }
}

/// The seventh day of a week is exactly six days after its first: it exists,
/// it is six places further in the count of days, it falls on the day of the
/// week before the first day's, and it is `week_end` of the first day, so a
/// week that starts late in a month ends in the next month, and one that
/// starts late in December ends in January of the next year.
pub proof fn lemma_week_end(d: CalendarDate)
    requires
        is_calendar_date(d),
    ensures
        plus_days(d, 6) == week_end(d),
        is_calendar_date(week_end(d)),
        day_number(week_end(d)) == day_number(d) + 6,
        weekday_from_sunday(week_end(d)) == (weekday_from_sunday(d) + 6) % 7,
{
    lemma_plus_days(d, 6);
    let length = days_in_month(d.year, d.month);
    if d.day + 6 <= length {
    } else if d.month < 12 {
        assert(days_before_month(d.year, d.month + 1) == days_before_month(d.year, d.month)
            + length);
    } else {
        lemma_year_length(d.year);
        lemma_months_fill_year(d.year);
        lemma_months_fill_year(d.year + 1);
        assert(days_before_month(d.year, 13) == days_before_month(d.year, 12) + 31);
    }
    lemma_day_number_is_one_to_one(plus_days(d, 6), week_end(d));
}

/// The same month and day, `cycles` times 400 years earlier.
pub open spec fn cycles_earlier(d: CalendarDate, cycles: int) -> CalendarDate {
    CalendarDate { year: d.year - 400 * cycles, month: d.month, day: d.day }
}

/// A year is a leap year exactly if the year 400 years earlier is.
pub proof fn lemma_leap_years_repeat(year: int)
    ensures
        is_leap_year(year - 400) == is_leap_year(year),
        forall|month: int| days_in_month(year - 400, month) == #[trigger] days_in_month(year, month),
{
}

/// 400 years hold 146097 days, which are 20871 whole weeks.
pub proof fn lemma_years_repeat(year: int)
    ensures
        days_before_year(year - 400) == days_before_year(year) - 146097,
{
}

/// As many days lie before a month as before the same month 400 years
/// earlier.
pub proof fn lemma_months_repeat(year: int, month: int)
    ensures
        days_before_month(year - 400, month) == days_before_month(year, month),
    decreases month,
{
    if month > 1 {
        lemma_months_repeat(year, month - 1);
        lemma_leap_years_repeat(year);
    }
}

/// The calendar repeats every 400 years: a day exists exactly if the same
/// day 400 years earlier does, it falls on the same day of the week, and the
/// week that starts on it ends on the same month and day as the week that
/// starts 400 years earlier.
pub proof fn lemma_calendar_repeats(d: CalendarDate)
    ensures
        is_calendar_date(cycles_earlier(d, 1)) == is_calendar_date(d),
        week_end(cycles_earlier(d, 1)) == cycles_earlier(week_end(d), 1),
        day_number(cycles_earlier(d, 1)) == day_number(d) - 146097,
        weekday_from_sunday(cycles_earlier(d, 1)) == weekday_from_sunday(d),
{
    lemma_leap_years_repeat(d.year);
    lemma_years_repeat(d.year);
    lemma_months_repeat(d.year, d.month);
    let e = cycles_earlier(d, 1);
    assert(days_in_month(e.year, e.month) == days_in_month(d.year, d.month));
    assert(day_number(e) == day_number(d) - 146097);
    assert(weekday_from_sunday(e) == weekday_from_sunday(d)) by {
        assert(146097 == 7 * 20871);
    }
}

/// A calendar date that exists, within `MIN_YEAR..=MAX_YEAR`.
#[derive(Clone, Copy, Debug, PartialEq, Eq, Structural)]
pub struct LocalDate {
    year: i32,
    month: u32,
    day: u32,
}

impl View for LocalDate {
    type V = CalendarDate;

    closed spec fn view(&self) -> CalendarDate {
        CalendarDate { year: self.year as int, month: self.month as int, day: self.day as int }
    }
}

/// Whether `year` is a leap year.
pub fn leap_year(year: i32) -> (leap: bool)
    ensures
        leap == is_leap_year(year as int),
{
    // The shift is a multiple of 400, so it keeps every remainder, and it
    // lifts every year above zero.
    let shifted: u64 = (year as i64 + 2147484000) as u64;
    shifted % 4 == 0 && (shifted % 100 != 0 || shifted % 400 == 0)
}

/// The number of days of `month` in `year`, for `month` in `1..=12`; 31 for
/// any other number.
pub fn month_length(year: i32, month: u32) -> (days: u32)
    ensures
        days as int == days_in_month(year as int, month as int),
{
    if month == 2 {
        if leap_year(year) {
            29
        } else {
            28
        }
    } else if month == 4 || month == 6 || month == 9 || month == 11 {
        30
    } else {
        31
    }
}

impl LocalDate {
    #[verifier::type_invariant]
    pub open spec fn well_formed(self) -> bool {
        representable(self@)
    }

    /// The date with this year, month and day, if that day exists and the
    /// year is within `MIN_YEAR..=MAX_YEAR`.
    pub fn new(year: i32, month: u32, day: u32) -> (date: Option<LocalDate>)
        ensures
            date is Some <==> representable(
                CalendarDate { year: year as int, month: month as int, day: day as int },
            ),
            date matches Some(d) ==> d@ == (CalendarDate {
                year: year as int,
                month: month as int,
                day: day as int,
            }),
    {
        if year < MIN_YEAR || year > MAX_YEAR || month < 1 || month > 12 || day < 1 {
            return None;
        }
        if day > month_length(year, month) {
            return None;
        }
        Some(LocalDate { year, month, day })
    }

    pub fn year(&self) -> (year: i32)
        ensures
            year as int == self@.year,
    {
        self.year
    }

    pub fn month(&self) -> (month: u32)
        ensures
            month as int == self@.month,
    {
        self.month
    }

    pub fn day(&self) -> (day: u32)
        ensures
            day as int == self@.day,
    {
        self.day
    }

    /// The day of the week, counted from Sunday: 0 is Sunday, 6 is Saturday.
    pub fn weekday_index(&self) -> (index: u32)
        ensures
            index as int == weekday_from_sunday(self@),
            index < 7,
    {
        proof {
            use_type_invariant(self);
        }
        match weekday_of(self.year, self.month, self.day) {
            Some(index) => index,
            None => unreached(),
        }
    }

    /// The date `days` days later, or `None` when that date lies beyond
    /// `MAX_YEAR`.
    pub fn plus_days(&self, days: u64) -> (later: Option<LocalDate>)
        ensures
            later is Some <==> representable(plus_days(self@, days as nat)),
            later matches Some(d) ==> d@ == plus_days(self@, days as nat),
    {
        proof {
            use_type_invariant(self);
        }
        match date_after(self.year, self.month, self.day, days) {
            Some((year, month, day)) => LocalDate::new(year, month, day),
            None => None,
        }
    }

    /// The year, month and day of the last day of the week that starts on
    /// this date, six days later. For a week that starts in the last days of
    /// `MAX_YEAR` that day lies in January of the year after `MAX_YEAR`.
    pub fn week_end(&self) -> (end: (i32, u32, u32))
        ensures
            (CalendarDate { year: end.0 as int, month: end.1 as int, day: end.2 as int })
                == week_end(self@),
            (CalendarDate { year: end.0 as int, month: end.1 as int, day: end.2 as int })
                == plus_days(self@, 6),
    {
        proof {
            use_type_invariant(self);
            lemma_week_end(self@);
        }
        if self.year < MAX_YEAR {
            match date_after(self.year, self.month, self.day, 6) {
                Some(end) => end,
                None => unreached(),
            }
        } else {
            // The week may end after the last year that can be held. The
            // calendar repeats every 400 years, so the six days are counted
            // from the same day 400 years earlier.
            proof {
                lemma_calendar_repeats(self@);
                lemma_week_end(cycles_earlier(self@, 1));
            }
            match date_after(self.year - 400, self.month, self.day, 6) {
                Some((year, month, day)) => (year + 400, month, day),
                None => unreached(),
            }
        }
    }
}

/// Calls `chrono::NaiveDate::from_ymd_opt`, then `Datelike::weekday` and
/// `Weekday::num_days_from_sunday` on the date it gives.
///
/// Trusted: that chrono builds a date exactly for the days that exist within
/// its range of years, that its weekday is the one the proleptic Gregorian
/// calendar gives that day, and that the index counts from Sunday as 0.
#[verifier::external_body]
fn weekday_of(year: i32, month: u32, day: u32) -> (index: Option<u32>)
    ensures
        index is Some <==> representable(
            CalendarDate { year: year as int, month: month as int, day: day as int },
        ),
        index matches Some(i) ==> i as int == weekday_from_sunday(
            CalendarDate { year: year as int, month: month as int, day: day as int },
        ),
{
    chrono::NaiveDate::from_ymd_opt(year, month, day).map(
        |date| chrono::Datelike::weekday(&date).num_days_from_sunday(),
    )
}

/// Calls `chrono::NaiveDate::from_ymd_opt`, then
/// `NaiveDate::checked_add_days`, and reads the year, month and day of the
/// result through `Datelike`.
///
/// Trusted: that chrono builds a date exactly for the days that exist within
/// its range of years, that adding `days` gives the day that comes `days` days
/// later in the proleptic Gregorian calendar, and that the addition fails
/// exactly when that day lies outside the range.
#[verifier::external_body]
fn date_after(year: i32, month: u32, day: u32, days: u64) -> (later: Option<(i32, u32, u32)>)
    ensures
        later is Some <==> {
            let d = CalendarDate { year: year as int, month: month as int, day: day as int };
            representable(d) && representable(plus_days(d, days as nat))
        },
        later matches Some(t) ==> (CalendarDate {
            year: t.0 as int,
            month: t.1 as int,
            day: t.2 as int,
        }) == plus_days(
            CalendarDate { year: year as int, month: month as int, day: day as int },
            days as nat,
        ),
{
    chrono::NaiveDate::from_ymd_opt(year, month, day)
        .and_then(|date| date.checked_add_days(chrono::Days::new(days)))
        .map(|date| {
            (chrono::Datelike::year(&date), chrono::Datelike::month(&date), chrono::Datelike::day(&date))
        })
}

} // verus!
