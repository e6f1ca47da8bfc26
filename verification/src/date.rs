//! Calendar dates of the proleptic Gregorian calendar, and the number of
//! whole years between two of them.

use vstd::prelude::*;
use crate::error::AgeError;

verus! {

/// The first year that a date can lie in.
pub const MIN_YEAR: i32 = -262143;

/// The last year that a date can lie in.
pub const MAX_YEAR: i32 = 262142;

/// Whether `year` has a 29th of February.
pub open spec fn is_leap_year(year: int) -> bool {
    year % 4 == 0 && (year % 100 != 0 || year % 400 == 0)
}

/// The number of days of `month` (1 to 12) in `year`.
pub open spec fn days_in_month(year: int, month: int) -> int {
    if month == 2 {
        if is_leap_year(year) {
            29
        } else {
            28
        }
    } else if month == 4 || month == 6 || month == 9 || month == 11 {
        30
    } else {
        31
    }
}

/// A day given by year, month and day of the month.
#[derive(Debug, Clone, Copy, PartialEq, Eq, Structural)]
pub struct CalendarDate {
    pub year: i32,
    pub month: u32,
    pub day: u32,
}

impl CalendarDate {
    /// The date names a day that exists, in a year within range.
    pub open spec fn valid(self) -> bool {
        &&& MIN_YEAR <= self.year <= MAX_YEAR
        &&& 1 <= self.month <= 12
        &&& 1 <= self.day <= days_in_month(self.year as int, self.month as int)
    }

    /// The month and day of `self` come before those of `other`, month
    /// first and then day, whatever the years.
    pub open spec fn spec_earlier_in_year(self, other: CalendarDate) -> bool {
        self.month < other.month || (self.month == other.month && self.day < other.day)
    }

    /// `self` and `other` have the same month and the same day.
    pub open spec fn spec_same_month_and_day(self, other: CalendarDate) -> bool {
        self.month == other.month && self.day == other.day
    }

    /// `self` is a day before `other`: year first, then month, then day.
    pub open spec fn spec_precedes(self, other: CalendarDate) -> bool {
        self.year < other.year || (self.year == other.year && self.spec_earlier_in_year(other))
    }

    /// The difference of the years of `self` and `base`, less one where
    /// `self` has not yet reached the month and day of `base`. Negative
    /// where `self` precedes `base`.
    pub open spec fn spec_year_steps_since(self, base: CalendarDate) -> int {
        self.year - base.year - if self.spec_earlier_in_year(base) {
            1int
        } else {
            0int
        }
    }

    /// The whole years from `base` to `self`; none where `self` precedes
    /// `base`.
    pub open spec fn spec_years_since(self, base: CalendarDate) -> Option<u32> {
        let steps = self.spec_year_steps_since(base);
        if steps >= 0 {
            Some(steps as u32)
        } else {
            None
        }
    }

    /// The date of the given year, month and day, if that day exists.
    pub fn from_ymd_opt(year: i32, month: u32, day: u32) -> (date: Option<CalendarDate>)
        ensures
            date == if (CalendarDate { year, month, day }).valid() {
                Some(CalendarDate { year, month, day })
            } else {
                None::<CalendarDate>
            },
    {
        if year < MIN_YEAR || year > MAX_YEAR || month < 1 || month > 12 || day < 1 {
            return None;
        }
        let last: u32 = month_length(year, month);
        if day > last {
            None
        } else {
            Some(CalendarDate { year, month, day })
        }
    }

    /// Whether the month and day of `self` come before those of `other`.
    #[verifier::when_used_as_spec(spec_earlier_in_year)]
    pub fn earlier_in_year(self, other: CalendarDate) -> (yes: bool)
        ensures
            yes == self.spec_earlier_in_year(other),
    {
        self.month < other.month || (self.month == other.month && self.day < other.day)
    }

    /// Whether `self` and `other` fall on the same month and day.
    #[verifier::when_used_as_spec(spec_same_month_and_day)]
    pub fn same_month_and_day(self, other: CalendarDate) -> (yes: bool)
        ensures
            yes == self.spec_same_month_and_day(other),
    {
        self.month == other.month && self.day == other.day
    }

    /// The whole years from `base` to `self`, or `None` where `self` is a
    /// day before `base`. Every pair of dates is accepted, and the widest
    /// span of years fits the result.
    #[verifier::when_used_as_spec(spec_years_since)]
    pub fn years_since(self, base: CalendarDate) -> (years: Option<u32>)
        ensures
            years == self.spec_years_since(base),
            years is None <==> self.spec_precedes(base),
    {
        let mut steps: i64 = self.year as i64 - base.year as i64;
        if self.earlier_in_year(base) {
            steps = steps - 1;
        }
        if steps >= 0 {
            Some(steps as u32)
        } else {
            None
        }
    }
}

/// The number of days of `month` in `year`.
fn month_length(year: i32, month: u32) -> (days: u32)
    requires
        MIN_YEAR <= year <= MAX_YEAR,
        1 <= month <= 12,
    ensures
        days as int == days_in_month(year as int, month as int),
{
    if month == 2 {
        // 262400 is a multiple of 400, so the shifted year is positive and
        // leaves the same remainders by 4, 100 and 400.
        let shifted: u32 = (year + 262400) as u32;
        let leap: bool = shifted % 4 == 0 && (shifted % 100 != 0 || shifted % 400 == 0);
        if leap {
            29
        } else {
            28
        }
    } else if month == 4 || month == 6 || month == 9 || month == 11 {
        30
    } else {
        31
    }
}

/// The error of chrono's date parser. Nothing of its contents is read here.
#[verifier::external_type_specification]
#[verifier::external_body]
pub struct ExParseError(chrono::format::ParseError);

/// The year, month and day that chrono's `NaiveDate::parse_from_str` reads
/// from `text` under `template`, or `None` where it reports an error.
pub uninterp spec fn spec_parse_date(text: Seq<char>, template: Seq<char>) -> Option<
    (i32, u32, u32),
>;

/// The date that a parsed triple of year, month and day stands for.
pub open spec fn date_of(fields: (i32, u32, u32)) -> CalendarDate {
    CalendarDate { year: fields.0, month: fields.1, day: fields.2 }
}

/// Calls chrono's `NaiveDate::parse_from_str` and hands back the year,
/// month and day of the date it read. Not proved: that the outcome is the
/// one named by [`spec_parse_date`] for this text and template, and that a
/// date which chrono accepts is a day that exists, in a year within range.
#[verifier::external_body]
pub(crate) fn parse_date(text: &str, template: &str) -> (parsed: Result<
    CalendarDate,
    chrono::format::ParseError,
>)
    ensures
        match parsed {
            Ok(date) => spec_parse_date(text@, template@) == Some(
                (date.year, date.month, date.day),
            ) && date.valid(),
            Err(_) => spec_parse_date(text@, template@) is None,
        },
{
    match chrono::NaiveDate::parse_from_str(text, template) {
        Ok(d) => Ok(
            CalendarDate {
                year: chrono::Datelike::year(&d),
                month: chrono::Datelike::month(&d),
                day: chrono::Datelike::day(&d),
            },
        ),
        Err(e) => Err(e),
    }
}

/// Calls chrono's `NaiveDate::from_yo_opt` for the first day of `year`.
/// Not proved: that chrono gives the first of January for every year from
/// [`MIN_YEAR`] to [`MAX_YEAR`], and no date for a year outside them.
#[verifier::external_body]
pub(crate) fn first_day_of_year(year: i32) -> (date: Option<CalendarDate>)
    ensures
        date == if MIN_YEAR <= year <= MAX_YEAR {
            Some(CalendarDate { year, month: 1, day: 1 })
        } else {
            None::<CalendarDate>
        },
{
    match chrono::NaiveDate::from_yo_opt(year, 1) {
        Some(d) => Some(
            CalendarDate {
                year: chrono::Datelike::year(&d),
                month: chrono::Datelike::month(&d),
                day: chrono::Datelike::day(&d),
            },
        ),
        None => None,
    }
}

/// Calls chrono's `Local::now` for the host's local date. Not proved: that
/// the date is a day that exists, in a year within range. Which day it is
/// depends on the host's clock and time zone, and nothing is said of it.
/// chrono stops the program where the clock stands before 1970.
#[verifier::external_body]
pub(crate) fn today() -> (date: CalendarDate)
    ensures
        date.valid(),
{
    let d = chrono::Local::now().naive_local().date();
    CalendarDate {
        year: chrono::Datelike::year(&d),
        month: chrono::Datelike::month(&d),
        day: chrono::Datelike::day(&d),
    }
}

/// What becomes of the parser's outcome: its date as it is, and any error
/// of it as [`AgeError::DateParse`].
pub fn date_from_parse(parsed: Result<CalendarDate, chrono::format::ParseError>) -> (date: Result<
    CalendarDate,
    AgeError,
>)
    ensures
        date == match parsed {
            Ok(d) => Ok::<CalendarDate, AgeError>(d),
            Err(_) => Err::<CalendarDate, AgeError>(AgeError::DateParse),
        },
{
    match parsed {
        Ok(d) => Ok(d),
        Err(_) => Err(AgeError::DateParse),
    }
}

/// On an anniversary, that is on the birthday's month and day in the same
/// or a later year, the age is the difference of the years.
pub proof fn lemma_age_on_anniversary(birthday: CalendarDate, current: CalendarDate)
    requires
        current.spec_same_month_and_day(birthday),
        current.year >= birthday.year,
    ensures
        current.spec_years_since(birthday) == Some((current.year - birthday.year) as u32),
{
}

/// Before the birthday's month and day the age is one less than the
/// difference of the years; there is no age unless the current year is a
/// later one.
pub proof fn lemma_age_before_birthday(birthday: CalendarDate, current: CalendarDate)
    requires
        current.spec_earlier_in_year(birthday),
    ensures
        current.spec_year_steps_since(birthday) == current.year - birthday.year - 1,
        current.spec_years_since(birthday) == if current.year > birthday.year {
            Some((current.year - birthday.year - 1) as u32)
        } else {
            None::<u32>
        },
{
}

/// From the birthday's month and day on, the age is the difference of the
/// years; there is no age where the current year is an earlier one.
pub proof fn lemma_age_from_birthday_on(birthday: CalendarDate, current: CalendarDate)
    requires
        !current.spec_earlier_in_year(birthday),
    ensures
        current.spec_year_steps_since(birthday) == current.year - birthday.year,
        current.spec_years_since(birthday) == if current.year >= birthday.year {
            Some((current.year - birthday.year) as u32)
        } else {
            None::<u32>
        },
{
}

/// On the day of birth the age is zero.
pub proof fn lemma_age_on_day_of_birth(date: CalendarDate)
    ensures
        date.spec_years_since(date) == Some(0u32),
{
}

/// There is an age exactly where the current date is not a day before the
/// birthday.
pub proof fn lemma_age_exists_unless_before_birth(birthday: CalendarDate, current: CalendarDate)
    ensures
        current.spec_years_since(birthday) is None <==> current.spec_precedes(birthday),
{
}

/// The age counts the birthdays that have passed: it is `n` exactly where
/// the current date has reached the birthday's month and day of the `n`-th
/// year after birth and not yet that of the year after.
pub proof fn lemma_age_counts_passed_birthdays(
    birthday: CalendarDate,
    current: CalendarDate,
    n: u32,
)
    ensures
        current.spec_years_since(birthday) == Some(n) <==> {
            let reached = current.year > birthday.year + n || (current.year == birthday.year + n
                && !current.spec_earlier_in_year(birthday));
            let next_reached = current.year > birthday.year + n + 1 || (current.year
                == birthday.year + n + 1 && !current.spec_earlier_in_year(birthday));
            reached && !next_reached
        },
{
}

} // verus!
