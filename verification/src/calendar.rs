//! Calendar dates in the proleptic Gregorian calendar, and the age of a
//! person on a reference date.

use vstd::prelude::*;
use crate::errors::AttestError;

verus! {

/// The first year that a date can lie in.
pub const MIN_YEAR: i32 = -262143;

/// The last year that a date can lie in.
pub const MAX_YEAR: i32 = 262142;

/// The last second, counted from 1970-01-01 00:00:00 UTC, that lies on a
/// date in range: the end of the last day of `MAX_YEAR`.
pub const MAX_TIMESTAMP: i64 = 8210266876799;

/// A birth date as it is carried in an attestation: private, never
/// disclosed. The fields are as decoded; whether the day exists in the
/// calendar is decided when an age is computed.
#[derive(Debug, Clone, Copy, PartialEq, Eq, Structural)]
pub struct DateOfBirth {
    pub day: u8,
    pub month: u8,
    pub year: u16,
}

/// A date by year, month and day of the month.
#[derive(Debug, Clone, Copy, PartialEq, Eq, Structural)]
pub struct CalendarDate {
    pub year: i32,
    pub month: u32,
    pub day: u32,
}

/// Whether `year` has 366 days.
pub open spec fn is_leap_year(year: int) -> bool {
    year % 4 == 0 && (year % 100 != 0 || year % 400 == 0)
}

/// The number of days of a month of a year; 0 for a month that does not
/// exist.
pub open spec fn days_in_month(year: int, month: int) -> int {
    if month == 2 {
        if is_leap_year(year) {
            29
        } else {
            28
        }
    } else if month == 4 || month == 6 || month == 9 || month == 11 {
        30
    } else if 1 <= month <= 12 {
        31
    } else {
        0
    }
}

/// The number of days of a year that lie before the first of a month.
pub open spec fn days_before_month(year: int, month: int) -> int
    decreases month,
{
    if month <= 1 {
        0
    } else {
        days_before_month(year, month - 1) + days_in_month(year, month - 1)
    }
}

/// Whether the day exists in the calendar and its year is in range.
pub open spec fn date_exists(year: int, month: int, day: int) -> bool {
    &&& MIN_YEAR <= year <= MAX_YEAR
    &&& 1 <= month <= 12
    &&& 1 <= day <= days_in_month(year, month)
}

/// The day of the year of a date, counted from 1.
pub open spec fn ordinal_in_year(year: int, month: int, day: int) -> int {
    days_before_month(year, month) + day
}

/// The day of the year of a date that exists, and nothing for one that
/// does not.
pub open spec fn day_of_year_spec(year: int, month: int, day: int) -> Option<u32> {
    if date_exists(year, month, day) {
        Some(ordinal_in_year(year, month, day) as u32)
    } else {
        None
    }
}

/// The number of leap years among the years 1 to `year`.
pub open spec fn leap_years_through(year: int) -> int {
    year / 4 - year / 100 + year / 400
}

/// The number of days from 1970-01-01 to the first day of `year`.
pub open spec fn days_before_year(year: int) -> int {
    365 * (year - 1970) + leap_years_through(year - 1) - 477
}

/// The number of days from 1970-01-01 to a date.
pub open spec fn epoch_day(year: int, month: int, day: int) -> int {
    days_before_year(year) + ordinal_in_year(year, month, day) - 1
}

/// Whether `date` is the day that holds the second `seconds`.
pub open spec fn is_date_of_second(date: CalendarDate, seconds: int) -> bool {
    &&& date_exists(date.year as int, date.month as int, date.day as int)
    &&& epoch_day(date.year as int, date.month as int, date.day as int) == seconds / 86400
}

/// The day of the year of a date, from `chrono::NaiveDate::from_ymd_opt`
/// and `chrono::Datelike::ordinal`.
///
/// Trusted: a date is made exactly of a year in range, a month from 1 to
/// 12 and a day that the month has in that year, and its ordinal is the
/// count of days from the first of January, which is day 1.
#[verifier::external_body]
pub(crate) fn day_of_year(year: i32, month: u32, day: u32) -> (ordinal: Option<u32>)
    ensures
        ordinal == day_of_year_spec(year as int, month as int, day as int),
{
    match chrono::NaiveDate::from_ymd_opt(year, month, day) {
        Some(date) => Some(chrono::Datelike::ordinal(&date)),
        None => None,
    }
}

/// The UTC date of a timestamp, from `chrono::DateTime::from_timestamp`
/// and the year, month and day of its `naive_utc().date()`.
///
/// Trusted, for timestamps from 0 on: there is a date exactly for
/// timestamps up to `MAX_TIMESTAMP`; that date exists and lies as many
/// days after 1970-01-01 as the timestamp holds whole days of 86400
/// seconds.
#[verifier::external_body]
pub(crate) fn utc_date(seconds: i64) -> (date: Option<CalendarDate>)
    requires
        seconds >= 0,
    ensures
        date is Some <==> seconds <= MAX_TIMESTAMP,
        date matches Some(d) ==> is_date_of_second(d, seconds as int),
{
    match chrono::DateTime::from_timestamp(seconds, 0) {
        Some(moment) => {
            let day = moment.naive_utc().date();
            Some(CalendarDate {
                year: chrono::Datelike::year(&day),
                month: chrono::Datelike::month(&day),
                day: chrono::Datelike::day(&day),
            })
        },
        None => None,
    }
}

/// Whether a month and day come earlier in a year than another month and
/// day.
pub open spec fn comes_before(month: int, day: int, other_month: int, other_day: int) -> bool {
    month < other_month || (month == other_month && day < other_day)
}

/// The age in whole years on a reference date: the difference of the
/// years, less one while the birthday of the reference year has not yet
/// come, that is, where the month and day of the reference date come
/// before the month and day of birth.
pub open spec fn age_in_years(birth: DateOfBirth, reference: CalendarDate) -> int {
    reference.year - birth.year - if comes_before(
        reference.month as int,
        reference.day as int,
        birth.month as int,
        birth.day as int,
    ) {
        1int
    } else {
        0int
    }
}

/// What `calculate_age` returns: the age where both dates exist, an input
/// error where one does not.
pub open spec fn calculate_age_spec(birth: DateOfBirth, reference: CalendarDate) -> Result<
    i64,
    AttestError,
> {
    if date_exists(birth.year as int, birth.month as int, birth.day as int) && date_exists(
        reference.year as int,
        reference.month as int,
        reference.day as int,
    ) {
        Ok(age_in_years(birth, reference) as i64)
    } else {
        Err(AttestError::InputError)
    }
}

/// Computes the age in whole years of a person born on `dob` on the
/// reference date.
pub fn calculate_age(dob: &DateOfBirth, reference: &CalendarDate) -> (age: Result<i64, AttestError>)
    ensures
        age == calculate_age_spec(*dob, *reference),
{
    let birth_exists = day_of_year(dob.year as i32, dob.month as u32, dob.day as u32).is_some();
    let reference_exists = day_of_year(reference.year, reference.month, reference.day).is_some();
    if !birth_exists || !reference_exists {
        return Err(AttestError::InputError);
    }
    let years: i64 = reference.year as i64 - dob.year as i64;
    let birth_month: u32 = dob.month as u32;
    let birth_day: u32 = dob.day as u32;
    if reference.month < birth_month || (reference.month == birth_month && reference.day
        < birth_day) {
        Ok(years - 1)
    } else {
        Ok(years)
    }
}

/// Within the reference year, the month and day of the reference date
/// come before the month and day of birth exactly where the day of the
/// year of the reference date comes before the day of the year on which
/// the birthday falls in that year. A birthday on 29 February falls on
/// day 60 of every year.
pub proof fn lemma_birthday_in_reference_year(birth: DateOfBirth, reference: CalendarDate)
    requires
        date_exists(birth.year as int, birth.month as int, birth.day as int),
        date_exists(reference.year as int, reference.month as int, reference.day as int),
    ensures
        comes_before(
            reference.month as int,
            reference.day as int,
            birth.month as int,
            birth.day as int,
        ) <==> ordinal_in_year(reference.year as int, reference.month as int, reference.day as int)
            < ordinal_in_year(reference.year as int, birth.month as int, birth.day as int),
{
    lemma_days_before_month(reference.year as int, reference.month as int);
    lemma_days_before_month(reference.year as int, birth.month as int);
}

/// Counting the multiples of 4 up to a year goes up by one exactly at a
/// multiple of 4.
proof fn lemma_step_of_4(year: int)
    ensures
        year / 4 - (year - 1) / 4 == if year % 4 == 0 {
            1int
        } else {
            0int
        },
{
}

/// Counting the multiples of 100 up to a year goes up by one exactly at
/// a multiple of 100, which is a multiple of 4.
proof fn lemma_step_of_100(year: int)
    ensures
        year / 100 - (year - 1) / 100 == if year % 100 == 0 {
            1int
        } else {
            0int
        },
        year % 100 == 0 ==> year % 4 == 0,
{
    if year % 100 == 0 {
        assert(year == 4 * (25 * (year / 100)));
    }
}

/// Counting the multiples of 400 up to a year goes up by one exactly at
/// a multiple of 400, which is a multiple of 100.
proof fn lemma_step_of_400(year: int)
    ensures
        year / 400 - (year - 1) / 400 == if year % 400 == 0 {
            1int
        } else {
            0int
        },
        year % 400 == 0 ==> year % 100 == 0,
{
    if year % 400 == 0 {
        assert(year == 100 * (4 * (year / 400)));
    }
}

/// From one year to the next, the days before the year grow by the
/// length of the year.
pub proof fn lemma_year_length(year: int)
    ensures
        days_before_year(year + 1) == days_before_year(year) + if is_leap_year(year) {
            366int
        } else {
            365int
        },
{
    lemma_step_of_4(year);
    lemma_step_of_100(year);
    lemma_step_of_400(year);
}

/// A later year starts on a later day.
pub proof fn lemma_years_in_order(earlier: int, later: int)
    requires
        earlier <= later,
    ensures
        days_before_year(earlier) <= days_before_year(later),
    decreases later - earlier,
{
    if earlier < later {
        lemma_years_in_order(earlier, later - 1);
        lemma_year_length(later - 1);
    }
}

/// The days before each month, counted out.
pub proof fn lemma_days_before_month(year: int, month: int)
    requires
        1 <= month <= 12,
    ensures
        days_before_month(year, month) == (if month == 1 {
            0int
        } else if month == 2 {
            31
        } else if month == 3 {
            59
        } else if month == 4 {
            90
        } else if month == 5 {
            120
        } else if month == 6 {
            151
        } else if month == 7 {
            181
        } else if month == 8 {
            212
        } else if month == 9 {
            243
        } else if month == 10 {
            273
        } else if month == 11 {
            304
        } else {
            334
        }) + if month > 2 && is_leap_year(year) {
            1int
        } else {
            0int
        },
{
    reveal_with_fuel(days_before_month, 13);
}

/// The day of the year of a day that exists is at most the length of the
/// year, and within a year a later date has a later day of the year.
pub proof fn lemma_ordinal_in_order(year: int, month: int, day: int, month2: int, day2: int)
    requires
        1 <= month <= 12,
        1 <= day <= days_in_month(year, month),
        1 <= month2 <= 12,
        1 <= day2 <= days_in_month(year, month2),
    ensures
        1 <= ordinal_in_year(year, month, day) <= if is_leap_year(year) {
            366int
        } else {
            365int
        },
        ordinal_in_year(year, month, day) == ordinal_in_year(year, month2, day2) ==> month
            == month2 && day == day2,
{
    lemma_days_before_month(year, month);
    lemma_days_before_month(year, month2);
}

/// No second lies on two dates.
pub proof fn lemma_date_of_second_is_unique(first: CalendarDate, second: CalendarDate, seconds: int)
    requires
        is_date_of_second(first, seconds),
        is_date_of_second(second, seconds),
    ensures
        first == second,
{
    let y1 = first.year as int;
    let y2 = second.year as int;
    lemma_ordinal_in_order(
        y1,
        first.month as int,
        first.day as int,
        first.month as int,
        first.day as int,
    );
    lemma_ordinal_in_order(
        y2,
        second.month as int,
        second.day as int,
        second.month as int,
        second.day as int,
    );
    if y1 < y2 {
        lemma_year_length(y1);
        lemma_years_in_order(y1 + 1, y2);
    } else if y2 < y1 {
        lemma_year_length(y2);
        lemma_years_in_order(y2 + 1, y1);
    } else {
        lemma_ordinal_in_order(
            y1,
            first.month as int,
            first.day as int,
            second.month as int,
            second.day as int,
        );
    }
}

/// The UTC date on which a second from 0 to `MAX_TIMESTAMP` lies.
pub open spec fn utc_date_of(seconds: int) -> CalendarDate {
    choose|date: CalendarDate| is_date_of_second(date, seconds)
}

/// What `reference_date` returns: the date of the timestamp where it is
/// in range, an input error where it is not.
pub open spec fn reference_date_spec(timestamp: u64) -> Result<CalendarDate, AttestError> {
    if timestamp <= MAX_TIMESTAMP {
        Ok(utc_date_of(timestamp as int))
    } else {
        Err(AttestError::InputError)
    }
}

/// The UTC date on which a reference timestamp lies.
pub fn reference_date(timestamp: u64) -> (date: Result<CalendarDate, AttestError>)
    ensures
        date == reference_date_spec(timestamp),
        date matches Ok(d) ==> is_date_of_second(d, timestamp as int),
{
    if timestamp > MAX_TIMESTAMP as u64 {
        return Err(AttestError::InputError);
    }
    match utc_date(timestamp as i64) {
        Some(date) => {
            proof {
                lemma_date_of_second_is_unique(
                    date,
                    utc_date_of(timestamp as int),
                    timestamp as int,
                );
            }
            Ok(date)
        },
        None => Err(AttestError::InputError),
    }
}

} // verus!
