//! A date as it was written in the settings: kept as text, and read only
//! once the date format is known.

use vstd::prelude::*;
use crate::date::{
    date_from_parse, first_day_of_year, parse_date, spec_parse_date, date_of, CalendarDate,
    MAX_YEAR, MIN_YEAR,
};
use crate::error::AgeError;
use crate::year::{parse_year, spec_parse_year};

verus! {

/// A written date: a full date, or a year alone.
#[derive(Debug)]
pub enum DateSpecifier {
    Full(String),
    YearOnly(String),
}

/// What a [`DateSpecifier`] holds, as sequences of characters.
pub enum DateSpecifierView {
    Full(Seq<char>),
    YearOnly(Seq<char>),
}

impl View for DateSpecifier {
    type V = DateSpecifierView;

    open spec fn view(&self) -> DateSpecifierView {
        match self {
            DateSpecifier::Full(text) => DateSpecifierView::Full(text@),
            DateSpecifier::YearOnly(text) => DateSpecifierView::YearOnly(text@),
        }
    }
}

impl DateSpecifierView {
    /// The specifier names month and day, not a year alone.
    pub open spec fn is_full(self) -> bool {
        self is Full
    }

    /// The day that the specifier stands for under a parsing template.
    ///
    /// A full date is whatever the date parser reads from the text under
    /// the template. A year alone is the first of January of the year that
    /// the text writes, where that year lies within the calendar's range.
    pub open spec fn resolve(self, template: Seq<char>) -> Result<CalendarDate, AgeError> {
        match self {
            DateSpecifierView::Full(text) => match spec_parse_date(text, template) {
                Some(fields) => Ok(date_of(fields)),
                None => Err(AgeError::DateParse),
            },
            DateSpecifierView::YearOnly(text) => match spec_parse_year(text) {
                Some(year) => if MIN_YEAR <= year <= MAX_YEAR {
                    Ok(CalendarDate { year, month: 1, day: 1 })
                } else {
                    Err(AgeError::InvalidYear)
                },
                None => Err(AgeError::InvalidYear),
            },
        }
    }
}

impl DateSpecifier {
    /// A specifier of a year alone. The text is kept as it is.
    pub fn year(year: &str) -> (specifier: DateSpecifier)
        ensures
            specifier@ == DateSpecifierView::YearOnly(year@),
    {
        DateSpecifier::YearOnly(year.to_owned())
    }

    /// A specifier of a full date. The text is kept as it is.
    pub fn full(date: &str) -> (specifier: DateSpecifier)
        ensures
            specifier@ == DateSpecifierView::Full(date@),
    {
        DateSpecifier::Full(date.to_owned())
    }

    /// Whether the specifier names month and day.
    pub fn is_full(&self) -> (yes: bool)
        ensures
            yes == self@.is_full(),
    {
        match self {
            DateSpecifier::Full(_) => true,
            DateSpecifier::YearOnly(_) => false,
        }
    }

    /// Reads the specifier under the parsing template `format_str`.
    pub fn to_naive_date(&self, format_str: &str) -> (date: Result<CalendarDate, AgeError>)
        ensures
            date == self@.resolve(format_str@),
            date matches Ok(d) ==> d.valid(),
    {
        match self {
            DateSpecifier::Full(text) => date_from_parse(parse_date(text.as_str(), format_str)),
            DateSpecifier::YearOnly(text) => year_start(parse_year(text.as_str())),
        }
    }
}

/// The first of January of a year that was read, or
/// [`AgeError::InvalidYear`] where none was read or the year is out of the
/// calendar's range.
pub fn year_start(year: Option<i32>) -> (date: Result<CalendarDate, AgeError>)
    ensures
        date == match year {
            Some(y) => if MIN_YEAR <= y <= MAX_YEAR {
                Ok::<CalendarDate, AgeError>(CalendarDate { year: y, month: 1, day: 1 })
            } else {
                Err::<CalendarDate, AgeError>(AgeError::InvalidYear)
            },
            None => Err::<CalendarDate, AgeError>(AgeError::InvalidYear),
        },
        date matches Ok(d) ==> d.valid(),
{
    match year {
        Some(y) => match first_day_of_year(y) {
            Some(d) => Ok(d),
            None => Err(AgeError::InvalidYear),
        },
        None => Err(AgeError::InvalidYear),
    }
}

} // verus!
