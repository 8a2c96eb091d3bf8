//! The error taxonomy of the shell: parse errors (malformed input),
//! validation errors (bad timestamp, bad URL, bad id encoding,
//! unsupported kind). Every error renders as a single user-visible
//! message; the command loop continues after any of them.

use vstd::prelude::*;
use crate::numfmt::dec_str;
use crate::numfmt::u64_to_string;

verus! {

/// An error found while parsing one line of input into a command.
#[derive(Debug)]
pub enum ParseError {
    /// The line ends inside a quotation or right after a backslash.
    Quoting,
    /// The line holds no tokens at all.
    EmptyInput,
    /// The first token is not in the command vocabulary.
    UnknownCommand(String),
    /// A required argument is absent; the payload names the field.
    MissingArgument(String),
    /// An argument is present but not convertible to its type; the
    /// payload names the field.
    BadArgument(String),
    /// A token stands where the command's grammar allows none.
    UnexpectedToken(String),
}

/// The mathematical image of a [`ParseError`].
pub enum SpecParseError {
    Quoting,
    EmptyInput,
    UnknownCommand(Seq<char>),
    MissingArgument(Seq<char>),
    BadArgument(Seq<char>),
    UnexpectedToken(Seq<char>),
}

impl View for ParseError {
    type V = SpecParseError;

    open spec fn view(&self) -> SpecParseError {
        match self {
            ParseError::Quoting => SpecParseError::Quoting,
            ParseError::EmptyInput => SpecParseError::EmptyInput,
            ParseError::UnknownCommand(w) => SpecParseError::UnknownCommand(w@),
            ParseError::MissingArgument(f) => SpecParseError::MissingArgument(f@),
            ParseError::BadArgument(f) => SpecParseError::BadArgument(f@),
            ParseError::UnexpectedToken(t) => SpecParseError::UnexpectedToken(t@),
        }
    }
}

/// An error found while validating a command's fields, before any
/// relay call is made.
#[derive(Debug, Clone, Copy, PartialEq, Eq, Structural)]
pub enum ValidationError {
    /// The supplied publish date is not a standards-compliant
    /// date-time string.
    InvalidTimestamp,
    /// The supplied image URL is not a well-formed URL.
    InvalidUrl,
    /// The supplied event id does not decode from its human-readable
    /// encoded form.
    InvalidId,
    /// The event kind is neither a short note nor a long-form
    /// article; the payload is the rejected kind value.
    UnsupportedKind(u16),
}

/// The message text for a parse error.
pub open spec fn spec_parse_error_message(e: SpecParseError) -> Seq<char> {
    match e {
        SpecParseError::Quoting => "error: Invalid quoting"@,
        SpecParseError::EmptyInput => "error: no command given"@,
        SpecParseError::UnknownCommand(w) => "error: unknown command '"@ + w + "'"@,
        SpecParseError::MissingArgument(f) => "error: missing argument '"@ + f + "'"@,
        SpecParseError::BadArgument(f) => "error: bad argument '"@ + f + "'"@,
        SpecParseError::UnexpectedToken(t) => "error: unexpected token '"@ + t + "'"@,
    }
}

/// The message text for a validation error.
pub open spec fn spec_validation_message(e: ValidationError) -> Seq<char> {
    match e {
        ValidationError::InvalidTimestamp => "Invalid publish date"@,
        ValidationError::InvalidUrl => "Invalid image URL"@,
        ValidationError::InvalidId => "Invalid Id"@,
        ValidationError::UnsupportedKind(k) => "Event kind "@ + dec_str(k as nat) + " not supported"@,
    }
}

impl ParseError {
    /// The single-line message shown for this error.
    pub fn message(&self) -> (r: String)
        ensures
            r@ == spec_parse_error_message(self@),
    {
        match self {
            ParseError::Quoting => String::from_str("error: Invalid quoting"),
            ParseError::EmptyInput => String::from_str("error: no command given"),
            ParseError::UnknownCommand(w) => quoted_message("error: unknown command '", w),
            ParseError::MissingArgument(f) => quoted_message("error: missing argument '", f),
            ParseError::BadArgument(f) => quoted_message("error: bad argument '", f),
            ParseError::UnexpectedToken(t) => quoted_message("error: unexpected token '", t),
        }
    }
}

/// Builds `prefix` + `word` + a closing single quote.
fn quoted_message(prefix: &str, word: &String) -> (r: String)
    ensures
        r@ == prefix@ + word@ + "'"@,
{
    let mut out = String::from_str(prefix);
    out.append(word.as_str());
    out.append("'");
    out
}

impl ValidationError {
    /// The single-line message shown for this error.
    pub fn message(&self) -> (r: String)
        ensures
            r@ == spec_validation_message(*self),
    {
        match self {
            ValidationError::InvalidTimestamp => String::from_str("Invalid publish date"),
            ValidationError::InvalidUrl => String::from_str("Invalid image URL"),
            ValidationError::InvalidId => String::from_str("Invalid Id"),
            ValidationError::UnsupportedKind(k) => {
                let mut out = String::from_str("Event kind ");
                let num = u64_to_string(*k as u64);
                out.append(num.as_str());
                out.append(" not supported");
                out
            },
        }
    }
}

} // verus!
