//! Page titles: the text under which a period's page is published, derived
//! from the period kind and the date on which the period starts.

use crate::calendar::{
    day_number, is_calendar_date, lemma_week_end, plus_days, week_end, weekday_from_sunday,
    CalendarDate, LocalDate,
};
use crate::text::{
    decimal, is_free_of, lemma_cut_at_mark, lemma_decimal_is_one_to_one, lemma_decimal_shape,
    push_decimal,
};
use vstd::prelude::*;

verus! {

/// Which recurring page is published.
#[derive(Clone, Copy, Debug, PartialEq, Eq, Structural)]
pub enum PeriodKind {
    Daily,
    Weekly,
}

/// The English three-letter name of a day of the week, counted from Sunday
/// as 0.
pub open spec fn weekday_abbreviation(index: int) -> Seq<char> {
    if index == 0 {
        seq!['S', 'u', 'n']
    } else if index == 1 {
        seq!['M', 'o', 'n']
    } else if index == 2 {
        seq!['T', 'u', 'e']
    } else if index == 3 {
        seq!['W', 'e', 'd']
    } else if index == 4 {
        seq!['T', 'h', 'u']
    } else if index == 5 {
        seq!['F', 'r', 'i']
    } else {
        seq!['S', 'a', 't']
    }
}

/// Year, month and day as decimal numerals without leading zeros, with a
/// slash between them.
pub open spec fn date_text(d: CalendarDate) -> Seq<char> {
    decimal(d.year) + seq!['/'] + decimal(d.month) + seq!['/'] + decimal(d.day)
}

/// The title of the daily page of `d`: the date, then the name of its day of
/// the week in parentheses.
pub open spec fn daily_title(d: CalendarDate) -> Seq<char> {
    date_text(d) + seq![' ', '('] + weekday_abbreviation(weekday_from_sunday(d)) + seq![')']
}

/// The title of the weekly page of the week that starts on `d`: its first
/// day, a tilde, and its seventh day, six days later.
pub open spec fn weekly_title(d: CalendarDate) -> Seq<char> {
    date_text(d) + seq![' ', '~', ' '] + date_text(plus_days(d, 6))
}

/// The title of the page of the period of `kind` that starts on `d`.
pub open spec fn title_text(kind: PeriodKind, d: CalendarDate) -> Seq<char> {
    match kind {
        PeriodKind::Daily => daily_title(d),
        PeriodKind::Weekly => weekly_title(d),
    }
}

/// The second date of a weekly title is the day exactly six days after the
/// first, in the same calendar: it exists, it is six places further in the
/// count of days, and where the week runs past the end of a month, or of a
/// year, it is the day of the next month, or of January of the next year,
/// that `week_end` gives.
pub proof fn lemma_weekly_title_spans_a_week(d: CalendarDate)
    requires
        is_calendar_date(d),
    ensures
        weekly_title(d) == date_text(d) + seq![' ', '~', ' '] + date_text(week_end(d)),
        is_calendar_date(week_end(d)),
        day_number(week_end(d)) == day_number(d) + 6,
{
    lemma_week_end(d);
}

/// What follows the first date and a space in a title: the day of the week
/// in parentheses, or a tilde, a space and the last day of the week.
pub open spec fn title_rest(kind: PeriodKind, d: CalendarDate) -> Seq<char> {
    match kind {
        PeriodKind::Daily => seq!['('] + weekday_abbreviation(weekday_from_sunday(d)) + seq![')'],
        PeriodKind::Weekly => seq!['~', ' '] + date_text(plus_days(d, 6)),
    }
}

/// A date is written with digits, minus signs and slashes only.
pub proof fn lemma_date_text_has_no_space(d: CalendarDate)
    ensures
        is_free_of(date_text(d), ' '),
{
    lemma_decimal_shape(d.year);
    lemma_decimal_shape(d.month);
    lemma_decimal_shape(d.day);
    let year = decimal(d.year);
    let month = decimal(d.month);
    let day = decimal(d.day);
    let text = date_text(d);
    assert forall|k: int| 0 <= k < text.len() implies #[trigger] text[k] != ' ' by {
        if k < year.len() {
            assert(text[k] == year[k]);
        } else if k == year.len() {
        } else if k < year.len() + 1 + month.len() {
            assert(text[k] == month[k - year.len() - 1]);
        } else if k == year.len() + 1 + month.len() {
        } else {
            assert(text[k] == day[k - year.len() - month.len() - 2]);
        }
    }
}

/// Two dates that are written the same are the same date.
pub proof fn lemma_date_text_is_one_to_one(a: CalendarDate, b: CalendarDate)
    requires
        date_text(a) == date_text(b),
    ensures
        a == b,
{
    lemma_decimal_shape(a.year);
    lemma_decimal_shape(a.month);
    lemma_decimal_shape(a.day);
    lemma_decimal_shape(b.year);
    lemma_decimal_shape(b.month);
    lemma_decimal_shape(b.day);
    let rest_a = decimal(a.month) + seq!['/'] + decimal(a.day);
    let rest_b = decimal(b.month) + seq!['/'] + decimal(b.day);
    assert(date_text(a) =~= decimal(a.year) + seq!['/'] + rest_a);
    assert(date_text(b) =~= decimal(b.year) + seq!['/'] + rest_b);
    lemma_cut_at_mark(decimal(a.year), rest_a, decimal(b.year), rest_b, '/');
    lemma_cut_at_mark(decimal(a.month), decimal(a.day), decimal(b.month), decimal(b.day), '/');
    lemma_decimal_is_one_to_one(a.year, b.year);
    lemma_decimal_is_one_to_one(a.month, b.month);
    lemma_decimal_is_one_to_one(a.day, b.day);
}

/// The title is the key by which a page is found again: two titles are the
/// same only for the same kind of period and the same first day. So the
/// pages of two different days, or of weeks that start on different days,
/// never share a title, nor does a daily page with a weekly one.
pub proof fn lemma_title_is_one_to_one(
    kind_a: PeriodKind,
    a: CalendarDate,
    kind_b: PeriodKind,
    b: CalendarDate,
)
    requires
        title_text(kind_a, a) == title_text(kind_b, b),
    ensures
        kind_a == kind_b,
        a == b,
{
    lemma_date_text_has_no_space(a);
    lemma_date_text_has_no_space(b);
    assert(title_text(kind_a, a) =~= date_text(a) + seq![' '] + title_rest(kind_a, a));
    assert(title_text(kind_b, b) =~= date_text(b) + seq![' '] + title_rest(kind_b, b));
    lemma_cut_at_mark(date_text(a), title_rest(kind_a, a), date_text(b), title_rest(kind_b, b), ' ');
    lemma_date_text_is_one_to_one(a, b);
    assert(title_rest(kind_a, a)[0] == title_rest(kind_b, b)[0]);
}

/// The English three-letter name of a day of the week, counted from Sunday
/// as 0.
pub fn weekday_name(index: u32) -> (name: &'static str)
    requires
        index < 7,
    ensures
        name@ == weekday_abbreviation(index as int),
{
    let name = if index == 0 {
        "Sun"
    } else if index == 1 {
        "Mon"
    } else if index == 2 {
        "Tue"
    } else if index == 3 {
        "Wed"
    } else if index == 4 {
        "Thu"
    } else if index == 5 {
        "Fri"
    } else {
        "Sat"
    };
    proof {
        reveal_strlit("Sun");
        reveal_strlit("Mon");
        reveal_strlit("Tue");
        reveal_strlit("Wed");
        reveal_strlit("Thu");
        reveal_strlit("Fri");
        reveal_strlit("Sat");
        assert(name@ =~= weekday_abbreviation(index as int));
    }
    name
}

/// Appends a date as year, month and day with slashes between them.
fn push_date(out: &mut String, year: i32, month: u32, day: u32)
    ensures
        final(out)@ == old(out)@ + date_text(
            CalendarDate { year: year as int, month: month as int, day: day as int },
        ),
{
    push_decimal(out, year as i64);
    out.push('/');
    push_decimal(out, month as i64);
    out.push('/');
    push_decimal(out, day as i64);
    proof {
        assert(final(out)@ =~= old(out)@ + date_text(
            CalendarDate { year: year as int, month: month as int, day: day as int },
        ));
    }
}

/// The title of the daily page of `now`, such as `2024/1/3 (Wed)`.
///
/// The title is a function of the calendar date alone: whatever the hour,
/// the same day gives the same title.
pub fn generate_daily_title(now: LocalDate) -> (title: String)
    ensures
        title@ == daily_title(now@),
{
    let mut title = String::new();
    push_date(&mut title, now.year(), now.month(), now.day());
    title.push(' ');
    title.push('(');
    title.append(weekday_name(now.weekday_index()));
    title.push(')');
    proof {
        assert(title@ =~= daily_title(now@));
    }
    title
}

/// The title of the weekly page of the week that starts on `now`, such as
/// `2024/1/29 ~ 2024/2/4`: the second date is the day six days after the
/// first.
pub fn generate_weekly_title(now: LocalDate) -> (title: String)
    ensures
        title@ == weekly_title(now@),
{
    let mut title = String::new();
    push_date(&mut title, now.year(), now.month(), now.day());
    title.push(' ');
    title.push('~');
    title.push(' ');
    let (year, month, day) = now.week_end();
    push_date(&mut title, year, month, day);
    proof {
        use_type_invariant(now);
        lemma_week_end(now@);
        assert(title@ =~= weekly_title(now@));
    }
    title
}

/// The title of the page of the period of `kind` that starts on `now`.
pub fn generate_title(kind: PeriodKind, now: LocalDate) -> (title: String)
    ensures
        title@ == title_text(kind, now@),
{
    match kind {
        PeriodKind::Daily => generate_daily_title(now),
        PeriodKind::Weekly => generate_weekly_title(now),
    }
}

} // verus!
