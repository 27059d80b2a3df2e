//! Calendar time from seconds since the Unix epoch, in UTC and in the
//! proleptic Gregorian calendar, written as `YYYY-MM-DDTHH:MM:SSZ`.

use vstd::prelude::*;
use vstd::string::StringExecFns;
use crate::text::append_padded;
use crate::text::padded_numeral;

verus! {

pub open spec fn is_leap_year(year: int) -> bool {
    year % 4 == 0 && (year % 100 != 0 || year % 400 == 0)
}

pub open spec fn days_in_year(year: int) -> int {
    if is_leap_year(year) {
        366
    } else {
        365
    }
}

/// The days of month `month` (1 to 12) of `year`.
pub open spec fn days_in_month(year: int, month: int) -> int {
    if month == 2 {
        if is_leap_year(year) {
            29
        } else {
            28
        }
    } else if month == 4 || month == 6 || month == 9 || month == 11 {
        30
    } else {
        31
    }
}

/// The year in which the day falls that comes `days` days after the first
/// of January of `from`.
pub open spec fn year_of(days: int, from: int) -> int
    decreases days,
{
    if days < days_in_year(from) {
        from
    } else {
        year_of(days - days_in_year(from), from + 1)
    }
}

/// How many days into its year the day falls that comes `days` days after
/// the first of January of `from`.
pub open spec fn day_of_year(days: int, from: int) -> int
    decreases days,
{
    if days < days_in_year(from) {
        days
    } else {
        day_of_year(days - days_in_year(from), from + 1)
    }
}

/// The month in which the day falls that comes `days` days after the first
/// of month `from` of `year`, within that year.
pub open spec fn month_of(days: int, year: int, from: int) -> int
    decreases 12 - from,
{
    if from >= 12 || days < days_in_month(year, from) {
        from
    } else {
        month_of(days - days_in_month(year, from), year, from + 1)
    }
}

/// The day of its month on which the day falls that comes `days` days
/// after the first of month `from` of `year`, within that year.
pub open spec fn day_of_month(days: int, year: int, from: int) -> int
    decreases 12 - from,
{
    if from >= 12 || days < days_in_month(year, from) {
        days + 1
    } else {
        day_of_month(days - days_in_month(year, from), year, from + 1)
    }
}

/// A moment by the calendar and the clock.
pub struct CivilTime {
    pub year: int,
    pub month: int,
    pub day: int,
    pub hour: int,
    pub minute: int,
    pub second: int,
}

/// The moment `seconds` seconds after the start of 1970.
pub open spec fn civil_time(seconds: nat) -> CivilTime {
    let days = seconds as int / 86400;
    let rest = seconds as int % 86400;
    let year = year_of(days, 1970);
    let within = day_of_year(days, 1970);
    CivilTime {
        year,
        month: month_of(within, year, 1),
        day: day_of_month(within, year, 1),
        hour: rest / 3600,
        minute: (rest % 3600) / 60,
        second: rest % 60,
    }
}

/// `moment` written out: the year to four digits at least, every other
/// part to two.
pub open spec fn civil_text(moment: CivilTime) -> Seq<char> {
    padded_numeral(moment.year as nat, 10, 4) + "-"@ + padded_numeral(moment.month as nat, 10, 2)
        + "-"@ + padded_numeral(moment.day as nat, 10, 2) + "T"@ + padded_numeral(
        moment.hour as nat,
        10,
        2,
    ) + ":"@ + padded_numeral(moment.minute as nat, 10, 2) + ":"@ + padded_numeral(
        moment.second as nat,
        10,
        2,
    ) + "Z"@
}

/// The text of a time given in seconds since the epoch; `unknown` for a
/// time that is not known.
pub open spec fn timestamp_text(time: Option<u64>) -> Seq<char> {
    match time {
        Some(seconds) => civil_text(civil_time(seconds as nat)),
        None => "unknown"@,
    }
}

/// The days from the start of 1970 to the start of `year`.
pub open spec fn days_before_year(year: int) -> int
    decreases year,
{
    if year <= 1970 {
        0
    } else {
        days_before_year(year - 1) + days_in_year(year - 1)
    }
}

/// The days from the start of `year` to the start of its month `month`.
pub open spec fn days_before_month(year: int, month: int) -> int
    decreases month,
{
    if month <= 1 {
        0
    } else {
        days_before_month(year, month - 1) + days_in_month(year, month - 1)
    }
}

proof fn lemma_year_split(days: int, from: int)
    requires
        0 <= days,
        1970 <= from,
    ensures
        from <= year_of(days, from),
        0 <= day_of_year(days, from) < days_in_year(year_of(days, from)),
        days_before_year(from) + days == days_before_year(year_of(days, from)) + day_of_year(
            days,
            from,
        ),
    decreases days,
{
    if days >= days_in_year(from) {
        lemma_year_split(days - days_in_year(from), from + 1);
    }
}

proof fn lemma_month_split(days: int, year: int, from: int)
    requires
        1 <= from <= 12,
        0 <= days,
        days_before_month(year, from) + days < days_in_year(year),
    ensures
        from <= month_of(days, year, from) <= 12,
        1 <= day_of_month(days, year, from) <= days_in_month(
            year,
            month_of(days, year, from),
        ),
        days_before_month(year, from) + days == days_before_month(
            year,
            month_of(days, year, from),
        ) + day_of_month(days, year, from) - 1,
    decreases 12 - from,
{
    reveal_with_fuel(days_before_month, 13);
    if from < 12 && days >= days_in_month(year, from) {
        lemma_month_split(days - days_in_month(year, from), year, from + 1);
    }
}

/// The date given for a day is a date of the calendar, and it is that
/// day's date: as many days lie between the start of 1970 and it as were
/// counted.
pub proof fn law_date_of_day(days: nat)
    ensures
        ({
            let year = year_of(days as int, 1970);
            let within = day_of_year(days as int, 1970);
            let month = month_of(within, year, 1);
            let day = day_of_month(within, year, 1);
            &&& is_date(year, month, day)
            &&& day_number(year, month, day) == days
        }),
{
    lemma_year_split(days as int, 1970);
    let year = year_of(days as int, 1970);
    lemma_month_split(day_of_year(days as int, 1970), year, 1);
}

/// Whether there is a day `day` of month `month` of `year`, from 1970 on.
pub open spec fn is_date(year: int, month: int, day: int) -> bool {
    1970 <= year && 1 <= month <= 12 && 1 <= day <= days_in_month(year, month)
}

/// The days from the start of 1970 to the day `day` of month `month` of
/// `year`.
pub open spec fn day_number(year: int, month: int, day: int) -> int {
    days_before_year(year) + days_before_month(year, month) + day - 1
}

proof fn lemma_within_the_year(year: int, month: int, day: int)
    requires
        1 <= month <= 12,
        1 <= day <= days_in_month(year, month),
    ensures
        0 <= days_before_month(year, month),
        days_before_month(year, month) + day <= days_before_month(year, month + 1),
        days_before_month(year, month + 1) <= days_in_year(year),
{
    reveal_with_fuel(days_before_month, 14);
}

proof fn lemma_days_before_month_grows(year: int, earlier: int, later: int)
    requires
        1 <= earlier <= later <= 13,
    ensures
        days_before_month(year, earlier) <= days_before_month(year, later),
    decreases later - earlier,
{
    if earlier < later {
        lemma_days_before_month_grows(year, earlier, later - 1);
    }
}

proof fn lemma_earlier_date(y1: int, m1: int, d1: int, y2: int, m2: int, d2: int)
    requires
        is_date(y1, m1, d1),
        is_date(y2, m2, d2),
        y1 < y2 || (y1 == y2 && (m1 < m2 || (m1 == m2 && d1 < d2))),
    ensures
        day_number(y1, m1, d1) < day_number(y2, m2, d2),
{
    lemma_within_the_year(y1, m1, d1);
    lemma_within_the_year(y2, m2, d2);
    if y1 < y2 {
        lemma_days_before_year_grows(y1, y1 + 1);
        lemma_days_before_year_grows(y1 + 1, y2);
    } else if m1 < m2 {
        lemma_days_before_month_grows(y1, m1 + 1, m2);
    }
}

/// No two dates stand for the same day: the date of a day is the only
/// date so many days after the start of 1970.
pub proof fn law_one_date_for_a_day(y1: int, m1: int, d1: int, y2: int, m2: int, d2: int)
    requires
        is_date(y1, m1, d1),
        is_date(y2, m2, d2),
        day_number(y1, m1, d1) == day_number(y2, m2, d2),
    ensures
        y1 == y2 && m1 == m2 && d1 == d2,
{
    if y1 < y2 || (y1 == y2 && (m1 < m2 || (m1 == m2 && d1 < d2))) {
        lemma_earlier_date(y1, m1, d1, y2, m2, d2);
    } else if y2 < y1 || (y2 == y1 && (m2 < m1 || (m2 == m1 && d2 < d1))) {
        lemma_earlier_date(y2, m2, d2, y1, m1, d1);
    }
}

/// The leap years among the years 1 to `year - 1`.
pub open spec fn leap_years_before(year: int) -> int {
    (year - 1) / 4 - (year - 1) / 100 + (year - 1) / 400
}

/// The days from the start of 1970 to the start of a later year: 365 for
/// each year between, and one more for each leap year among them.
pub proof fn law_days_before_year(year: int)
    requires
        1970 <= year,
    ensures
        days_before_year(year) == 365 * (year - 1970) + leap_years_before(year)
            - leap_years_before(1970),
    decreases year,
{
    if year > 1970 {
        law_days_before_year(year - 1);
        lemma_leap_year_counts(year - 1);
    }
}

/// A leap year is one more leap year, and no other year is.
proof fn lemma_leap_year_counts(year: int)
    requires
        1 <= year,
    ensures
        leap_years_before(year + 1) - leap_years_before(year) == if is_leap_year(year) {
            1int
        } else {
            0int
        },
{
    assert(year / 4 - (year - 1) / 4 == if year % 4 == 0 {
        1int
    } else {
        0int
    });
    assert(year / 100 - (year - 1) / 100 == if year % 100 == 0 {
        1int
    } else {
        0int
    });
    assert(year / 400 - (year - 1) / 400 == if year % 400 == 0 {
        1int
    } else {
        0int
    });
    assert(year % 100 == 0 ==> year % 4 == 0);
    assert(year % 400 == 0 ==> year % 100 == 0);
}

/// Four hundred years hold 146097 days.
proof fn lemma_four_centuries(cycles: int)
    requires
        0 <= cycles,
    ensures
        days_before_year(1970 + 400 * cycles) == 146097 * cycles,
{
    law_days_before_year(1970 + 400 * cycles);
    let last = 1969 + 400 * cycles;
    assert(last / 4 == 492 + 100 * cycles);
    assert(last / 100 == 19 + 4 * cycles);
    assert(last / 400 == 4 + cycles);
}

/// Whole years may be passed over at once: the year and the day of the
/// year of a day are the same counted from a later year, less the days
/// between.
proof fn lemma_pass_over_years(days: int, from: int, to: int)
    requires
        1970 <= from <= to,
        days_before_year(to) - days_before_year(from) <= days,
    ensures
        year_of(days, from) == year_of(
            days - (days_before_year(to) - days_before_year(from)),
            to,
        ),
        day_of_year(days, from) == day_of_year(
            days - (days_before_year(to) - days_before_year(from)),
            to,
        ),
    decreases to - from,
{
    if from < to {
        lemma_days_before_year_grows(from + 1, to);
        lemma_pass_over_years(days - days_in_year(from), from + 1, to);
    }
}

/// The days before a year are no fewer than those before an earlier one.
proof fn lemma_days_before_year_grows(earlier: int, later: int)
    requires
        1970 <= earlier <= later,
    ensures
        days_before_year(earlier) <= days_before_year(later),
        days_before_year(earlier + 1) == days_before_year(earlier) + days_in_year(earlier),
    decreases later - earlier,
{
    if earlier < later {
        lemma_days_before_year_grows(earlier, later - 1);
    }
}

fn leap(year: u64) -> (leap: bool)
    ensures
        leap == is_leap_year(year as int),
{
    year % 4 == 0 && (year % 100 != 0 || year % 400 == 0)
}

fn month_length(year: u64, month: u64) -> (days: u64)
    ensures
        days == days_in_month(year as int, month as int),
{
    if month == 2 {
        if leap(year) {
            29
        } else {
            28
        }
    } else if month == 4 || month == 6 || month == 9 || month == 11 {
        30
    } else {
        31
    }
}

/// Format a time, in seconds since the Unix epoch, as a human-readable
/// timestamp (ISO 8601).
pub fn format_timestamp(time: Option<u64>) -> (text: String)
    ensures
        text@ == timestamp_text(time),
{
    let secs = match time {
        Some(secs) => secs,
        None => {
            return "unknown".to_owned();
        },
    };
    let days = secs / 86400;
    let time_secs = secs % 86400;
    let hours = time_secs / 3600;
    let minutes = (time_secs % 3600) / 60;
    let seconds = time_secs % 60;

    let cycles = days / 146097;
    let mut year: u64 = 1970 + 400 * cycles;
    let mut remaining_days = days % 146097;
    proof {
        lemma_four_centuries(cycles as int);
        lemma_pass_over_years(days as int, 1970, 1970 + 400 * cycles);
    }
    loop
        invariant
            1970 <= year,
            year + remaining_days <= 1970 + days,
            days <= u64::MAX / 86400,
            year_of(remaining_days as int, year as int) == year_of(days as int, 1970),
            day_of_year(remaining_days as int, year as int) == day_of_year(days as int, 1970),
        ensures
            1970 <= year,
            year == year_of(days as int, 1970),
            remaining_days == day_of_year(days as int, 1970),
            remaining_days < 366,
        decreases remaining_days,
    {
        let days_in_year: u64 = if leap(year) {
            366
        } else {
            365
        };
        if remaining_days < days_in_year {
            break ;
        }
        remaining_days -= days_in_year;
        year += 1;
    }

    let mut month: u64 = 1;
    while month < 12 && remaining_days >= month_length(year, month)
        invariant
            1 <= month <= 12,
            remaining_days < 366,
            month_of(remaining_days as int, year as int, month as int) == month_of(
                day_of_year(days as int, 1970),
                year as int,
                1,
            ),
            day_of_month(remaining_days as int, year as int, month as int) == day_of_month(
                day_of_year(days as int, 1970),
                year as int,
                1,
            ),
        decreases 12 - month,
    {
        remaining_days -= month_length(year, month);
        month += 1;
    }
    let day = remaining_days + 1;

    let mut text = String::new();
    append_padded(&mut text, year, 10, 4);
    text.append("-");
    append_padded(&mut text, month, 10, 2);
    text.append("-");
    append_padded(&mut text, day, 10, 2);
    text.append("T");
    append_padded(&mut text, hours, 10, 2);
    text.append(":");
    append_padded(&mut text, minutes, 10, 2);
    text.append(":");
    append_padded(&mut text, seconds, 10, 2);
    text.append("Z");
    text
}

} // verus!
