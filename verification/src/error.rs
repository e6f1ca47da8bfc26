//! What can go wrong between the settings and the age.

use vstd::prelude::*;

verus! {

/// Why a date-format pattern such as `MDY/` was refused. The first four say
/// which of the four characters is absent; the last says that the three
/// letters are none of the accepted orders.
#[derive(Debug, Clone, Copy, PartialEq, Eq, Structural)]
pub enum FormatError {
    NoFirstCharacter,
    NoSecondCharacter,
    NoThirdCharacter,
    NoSeparator,
    InvalidOrder,
}

/// Every failure that ends a run.
#[derive(Debug, Clone, Copy, PartialEq, Eq, Structural)]
pub enum AgeError {
    /// The date-format pattern is malformed.
    FormatParse(FormatError),
    /// A date text does not fit the format, or names a day that does not exist.
    DateParse,
    /// A year text is not an integer, or the year is out of the calendar's range.
    InvalidYear,
    /// No layer of settings gave a birthday.
    MissingBirthday,
    /// The reference date lies before the birthday.
    NegativeAge,
}

impl FormatError {
    /// The text shown for this error.
    pub open spec fn spec_message(self) -> Seq<char> {
        match self {
            FormatError::NoFirstCharacter => "No first character found"@,
            FormatError::NoSecondCharacter => "No second character found"@,
            FormatError::NoThirdCharacter => "No third character found"@,
            FormatError::NoSeparator => "No separator found"@,
            FormatError::InvalidOrder => "Invalid date format"@,
        }
    }

    /// A human-readable description of the error.
    pub fn message(self) -> (text: String)
        ensures
            text@ == self.spec_message(),
    {
        match self {
            FormatError::NoFirstCharacter => "No first character found".to_owned(),
            FormatError::NoSecondCharacter => "No second character found".to_owned(),
            FormatError::NoThirdCharacter => "No third character found".to_owned(),
            FormatError::NoSeparator => "No separator found".to_owned(),
            FormatError::InvalidOrder => "Invalid date format".to_owned(),
        }
    }
}

impl AgeError {
    /// The text shown for this error.
    pub open spec fn spec_message(self) -> Seq<char> {
        match self {
            AgeError::FormatParse(inner) => inner.spec_message(),
            AgeError::DateParse => "The date does not match the date format"@,
            AgeError::InvalidYear => "Invalid year"@,
            AgeError::MissingBirthday =>
                "No birthday specified in either config or command line args"@,
            AgeError::NegativeAge => "The current date is before the birthday"@,
        }
    }

    /// A human-readable description of the error.
    pub fn message(self) -> (text: String)
        ensures
            text@ == self.spec_message(),
    {
        match self {
            AgeError::FormatParse(inner) => inner.message(),
            AgeError::DateParse => "The date does not match the date format".to_owned(),
            AgeError::InvalidYear => "Invalid year".to_owned(),
            AgeError::MissingBirthday =>
                "No birthday specified in either config or command line args".to_owned(),
            AgeError::NegativeAge => "The current date is before the birthday".to_owned(),
        }
    }
}

} // verus!
