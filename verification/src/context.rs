//! The resolved settings of one run, and what the run says.

use vstd::prelude::*;
use crate::date::CalendarDate;
use crate::error::AgeError;
use crate::verbosity::Verbosity;

verus! {

/// A line that the program may show besides the age.
#[derive(Debug, Clone, Copy, PartialEq, Eq, Structural)]
pub enum Notice {
    /// The configuration file could not be read or understood.
    ConfigFileUnreadable,
    /// The reference date, as it was resolved.
    CurrentDate(CalendarDate),
    /// The birthday, as it was resolved.
    Birthday(CalendarDate),
    /// The reference date is the birthday.
    HappyBirthday,
}

/// Everything the age computation needs, resolved.
#[derive(Debug, Clone, Copy, PartialEq, Eq, Structural)]
pub struct App {
    pub birthday: CalendarDate,
    pub current_date: CalendarDate,
    pub verbosity: Verbosity,
    pub wish_happy_birthday: bool,
}

impl App {
    /// The age, or [`AgeError::NegativeAge`] where the reference date lies
    /// before the birthday.
    pub open spec fn spec_calculate(self) -> Result<u32, AgeError> {
        match self.current_date.spec_years_since(self.birthday) {
            Some(age) => Ok(age),
            None => Err(AgeError::NegativeAge),
        }
    }

    /// A greeting is due: greetings are wished, the level is at least
    /// `Normal`, and the reference date has the birthday's month and day.
    pub open spec fn spec_greets(self) -> bool {
        &&& self.wish_happy_birthday
        &&& self.verbosity.spec_at_least(Verbosity::Normal)
        &&& self.current_date.spec_same_month_and_day(self.birthday)
    }

    /// The resolved dates are shown: only at level `Verbose`.
    pub open spec fn spec_shows_dates(self) -> bool {
        self.verbosity == Verbosity::Verbose
    }

    /// The lines shown before the age, in their order: the two dates, the
    /// reference date first, where dates are shown; then the greeting,
    /// where one is due.
    pub open spec fn spec_notices(self) -> Seq<Notice> {
        let dates = if self.spec_shows_dates() {
            seq![Notice::CurrentDate(self.current_date), Notice::Birthday(self.birthday)]
        } else {
            Seq::<Notice>::empty()
        };
        let greeting = if self.spec_greets() {
            seq![Notice::HappyBirthday]
        } else {
            Seq::<Notice>::empty()
        };
        dates + greeting
    }

    /// The age in whole years at the reference date.
    pub fn calculate(&self) -> (age: Result<u32, AgeError>)
        ensures
            age == self.spec_calculate(),
            age is Err <==> self.current_date.spec_precedes(self.birthday),
    {
        match self.current_date.years_since(self.birthday) {
            Some(age) => Ok(age),
            None => Err(AgeError::NegativeAge),
        }
    }

    /// Whether a birthday greeting is due.
    pub fn greets(&self) -> (yes: bool)
        ensures
            yes == self.spec_greets(),
    {
        self.wish_happy_birthday && self.verbosity.at_least(Verbosity::Normal)
            && self.current_date.same_month_and_day(self.birthday)
    }

    /// The lines to show before the age, in their order.
    pub fn notices(&self) -> (lines: Vec<Notice>)
        ensures
            lines@ == self.spec_notices(),
    {
        let mut lines: Vec<Notice> = Vec::new();
        if self.verbosity == Verbosity::Verbose {
            lines.push(Notice::CurrentDate(self.current_date));
            lines.push(Notice::Birthday(self.birthday));
        }
        if self.greets() {
            lines.push(Notice::HappyBirthday);
        }
        assert(lines@ =~= self.spec_notices());
        lines
    }
}

/// The greeting is among the lines exactly where one is due, and it is
/// then the last of them.
pub proof fn lemma_greeting_is_shown_when_due(app: App)
    ensures
        app.spec_notices().contains(Notice::HappyBirthday) <==> app.spec_greets(),
        app.spec_greets() ==> app.spec_notices().last() == Notice::HappyBirthday,
{
    let lines = app.spec_notices();
    if app.spec_greets() {
        assert(lines[lines.len() - 1] == Notice::HappyBirthday);
    } else {
        assert forall|i: int| 0 <= i < lines.len() implies lines[i] != Notice::HappyBirthday by {}
    }
}

/// At level `Verbose` the two dates come first, before any other line;
/// below it no date is shown.
pub proof fn lemma_dates_come_first(app: App)
    ensures
        app.verbosity == Verbosity::Verbose ==> app.spec_notices().len() >= 2
            && app.spec_notices()[0] == Notice::CurrentDate(app.current_date)
            && app.spec_notices()[1] == Notice::Birthday(app.birthday),
        app.verbosity != Verbosity::Verbose ==> forall|i: int|
            0 <= i < app.spec_notices().len() ==> app.spec_notices()[i] == Notice::HappyBirthday,
        app.verbosity == Verbosity::Quiet ==> app.spec_notices().len() == 0,
{
}

} // verus!
