//! The order of year, month and day in a written date, and the character
//! that separates them.

use vstd::prelude::*;
use vstd::string::*;
use crate::error::FormatError;

verus! {

/// One of three orders of the fields, each with its separator.
#[derive(Debug, Clone, Copy, PartialEq, Eq, Structural)]
pub enum DateFormat {
    /// Month, day, year
    MDY { separator: char },
    /// Day, month, year
    DMY { separator: char },
    /// Year, month, day
    YMD { separator: char },
}

/// The parsing template of three fields: each field is a percent sign and
/// its letter, and the separator stands between the first and the second
/// and between the second and the third.
pub open spec fn spec_template(first: char, second: char, third: char, separator: char) -> Seq<
    char,
> {
    seq!['%', first, separator, '%', second, separator, '%', third]
}

impl DateFormat {
    /// The format that a pattern stands for: its first three characters are
    /// `MDY`, `DMY` or `YMD`, and the fourth is the separator, taken as it
    /// is. Characters after the fourth are not looked at.
    pub open spec fn spec_from_str(s: Seq<char>) -> Result<DateFormat, FormatError> {
        if s.len() < 1 {
            Err(FormatError::NoFirstCharacter)
        } else if s.len() < 2 {
            Err(FormatError::NoSecondCharacter)
        } else if s.len() < 3 {
            Err(FormatError::NoThirdCharacter)
        } else if s.len() < 4 {
            Err(FormatError::NoSeparator)
        } else if s[0] == 'M' && s[1] == 'D' && s[2] == 'Y' {
            Ok(DateFormat::MDY { separator: s[3] })
        } else if s[0] == 'D' && s[1] == 'M' && s[2] == 'Y' {
            Ok(DateFormat::DMY { separator: s[3] })
        } else if s[0] == 'Y' && s[1] == 'M' && s[2] == 'D' {
            Ok(DateFormat::YMD { separator: s[3] })
        } else {
            Err(FormatError::InvalidOrder)
        }
    }

    /// The four-character pattern of this format: the three letters of the
    /// order, then the separator.
    pub open spec fn spec_pattern(self) -> Seq<char> {
        match self {
            DateFormat::MDY { separator } => seq!['M', 'D', 'Y', separator],
            DateFormat::DMY { separator } => seq!['D', 'M', 'Y', separator],
            DateFormat::YMD { separator } => seq!['Y', 'M', 'D', separator],
        }
    }

    /// The template by which dates in this format are parsed, such as
    /// `%m/%d/%Y`.
    pub open spec fn spec_fmt_string(self) -> Seq<char> {
        match self {
            DateFormat::MDY { separator } => spec_template('m', 'd', 'Y', separator),
            DateFormat::DMY { separator } => spec_template('d', 'm', 'Y', separator),
            DateFormat::YMD { separator } => spec_template('Y', 'm', 'd', separator),
        }
    }

    /// Reads a pattern such as `MDY/` or `YMD-`.
    pub fn from_str(s: &str) -> (parsed: Result<DateFormat, FormatError>)
        ensures
            parsed == Self::spec_from_str(s@),
    {
        let n: usize = s.unicode_len();
        if n < 1 {
            return Err(FormatError::NoFirstCharacter);
        }
        if n < 2 {
            return Err(FormatError::NoSecondCharacter);
        }
        if n < 3 {
            return Err(FormatError::NoThirdCharacter);
        }
        if n < 4 {
            return Err(FormatError::NoSeparator);
        }
        let first: char = s.get_char(0);
        let second: char = s.get_char(1);
        let third: char = s.get_char(2);
        let separator: char = s.get_char(3);
        if first == 'M' && second == 'D' && third == 'Y' {
            Ok(DateFormat::MDY { separator })
        } else if first == 'D' && second == 'M' && third == 'Y' {
            Ok(DateFormat::DMY { separator })
        } else if first == 'Y' && second == 'M' && third == 'D' {
            Ok(DateFormat::YMD { separator })
        } else {
            Err(FormatError::InvalidOrder)
        }
    }

    /// The four-character pattern that [`DateFormat::from_str`] reads back
    /// as this format.
    pub fn pattern(&self) -> (text: String)
        ensures
            text@ == self.spec_pattern(),
    {
        let mut text = String::new();
        match self {
            DateFormat::MDY { separator } => {
                push_char(&mut text, 'M');
                push_char(&mut text, 'D');
                push_char(&mut text, 'Y');
                push_char(&mut text, *separator);
            },
            DateFormat::DMY { separator } => {
                push_char(&mut text, 'D');
                push_char(&mut text, 'M');
                push_char(&mut text, 'Y');
                push_char(&mut text, *separator);
            },
            DateFormat::YMD { separator } => {
                push_char(&mut text, 'Y');
                push_char(&mut text, 'M');
                push_char(&mut text, 'D');
                push_char(&mut text, *separator);
            },
        }
        assert(text@ =~= self.spec_pattern());
        text
    }

    /// The template by which dates in this format are parsed.
    pub fn as_fmt_string(&self) -> (text: String)
        ensures
            text@ == self.spec_fmt_string(),
    {
        match self {
            DateFormat::MDY { separator } => template('m', 'd', 'Y', *separator),
            DateFormat::DMY { separator } => template('d', 'm', 'Y', *separator),
            DateFormat::YMD { separator } => template('Y', 'm', 'd', *separator),
        }
    }

    /// The format as it is displayed: its parsing template.
    pub fn to_string(&self) -> (text: String)
        ensures
            text@ == self.spec_fmt_string(),
    {
        self.as_fmt_string()
    }
}

impl Default for DateFormat {
    /// Month, day, year, separated by a slash.
    fn default() -> (format: DateFormat)
        ensures
            format == (DateFormat::MDY { separator: '/' }),
    {
        DateFormat::MDY { separator: '/' }
    }
}

/// Writes the template of three fields and their separator.
fn template(first: char, second: char, third: char, separator: char) -> (text: String)
    ensures
        text@ == spec_template(first, second, third, separator),
{
    let mut text = String::new();
    push_char(&mut text, '%');
    push_char(&mut text, first);
    push_char(&mut text, separator);
    push_char(&mut text, '%');
    push_char(&mut text, second);
    push_char(&mut text, separator);
    push_char(&mut text, '%');
    push_char(&mut text, third);
    assert(text@ =~= spec_template(first, second, third, separator));
    text
}

/// `String::push` of the standard library: the character is appended to
/// the end of the string, and the rest of it stays as it was.
#[verifier::external_body]
fn push_char(text: &mut String, c: char)
    ensures
        final(text)@ == old(text)@.push(c),
{
    text.push(c);
}

/// A format written as its four-character pattern is read back as the same
/// format.
pub proof fn lemma_pattern_round_trip(format: DateFormat)
    ensures
        format.spec_pattern().len() == 4,
        DateFormat::spec_from_str(format.spec_pattern()) == Ok::<DateFormat, FormatError>(format),
{
}

/// Only the first four characters of a pattern are read: a longer text
/// stands for what its first four characters stand for.
pub proof fn lemma_pattern_is_read_from_its_prefix(s: Seq<char>)
    requires
        s.len() >= 4,
    ensures
        DateFormat::spec_from_str(s.take(4)) == DateFormat::spec_from_str(s),
{
}

/// A text that is read as a format begins with that format's pattern.
pub proof fn lemma_accepted_text_begins_with_pattern(s: Seq<char>, format: DateFormat)
    requires
        DateFormat::spec_from_str(s) == Ok::<DateFormat, FormatError>(format),
    ensures
        s.len() >= 4,
        s.take(4) == format.spec_pattern(),
{
    assert(s.take(4) =~= format.spec_pattern());
}

/// Two formats with the same parsing template are the same format.
pub proof fn lemma_template_tells_formats_apart(a: DateFormat, b: DateFormat)
    requires
        a.spec_fmt_string() == b.spec_fmt_string(),
    ensures
        a == b,
{
    let s = a.spec_fmt_string();
    let t = b.spec_fmt_string();
    assert(s[1] == t[1]);
    assert(s[2] == t[2]);
    assert(s[4] == t[4]);
}

} // verus!
