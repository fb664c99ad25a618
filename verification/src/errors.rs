//! The errors that the bot's handlers report.

use vstd::prelude::*;
use vstd::string::*;
use crate::duration::{IntErrorKind, ParseError};

verus! {

/// Why a handler failed.
#[derive(Debug)]
pub enum Error {
    /// A failure described by a message.
    Msg(String),
    /// A regular expression built from configuration did not compile; the
    /// text of the `regex` crate's error.
    Regex(String),
    /// A URL did not parse; the text of the `url` crate's error.
    UrlParse(String),
    /// A duration did not parse.
    Duration(ParseError),
    /// A web service's answer is not JSON, or a value in it is not what
    /// the bot reads there; the text of the `serde_json` crate's error.
    Json(String),
    /// The log of past messages could not be written; the text of the
    /// error.
    Io(String),
}

/// What `std::num::ParseIntError` displays for each kind of error.
pub open spec fn int_error_text(kind: IntErrorKind) -> Seq<char> {
    match kind {
        IntErrorKind::Empty => "cannot parse integer from empty string"@,
        IntErrorKind::InvalidDigit => "invalid digit found in string"@,
        IntErrorKind::PosOverflow => "number too large to fit in target type"@,
        IntErrorKind::NegOverflow => "number too small to fit in target type"@,
    }
}

/// The text that tells what went wrong.
pub open spec fn error_text(e: Error) -> Seq<char> {
    match e {
        Error::Msg(m) => m@,
        Error::Regex(t) => t@,
        Error::UrlParse(t) => t@,
        Error::Duration(ParseError::InvalidDuration(m)) => m@,
        Error::Duration(ParseError::ParseIntError(kind)) => int_error_text(kind),
        Error::Json(t) => t@,
        Error::Io(t) => t@,
    }
}

impl Error {
    /// The text that tells what went wrong.
    pub fn text(&self) -> (r: String)
        ensures
            r@ == error_text(*self),
    {
        match self {
            Error::Msg(m) => m.clone(),
            Error::Regex(t) => t.clone(),
            Error::UrlParse(t) => t.clone(),
            Error::Duration(ParseError::InvalidDuration(m)) => m.clone(),
            Error::Duration(ParseError::ParseIntError(kind)) => match kind {
                IntErrorKind::Empty => String::from_str("cannot parse integer from empty string"),
                IntErrorKind::InvalidDigit => String::from_str("invalid digit found in string"),
                IntErrorKind::PosOverflow => String::from_str("number too large to fit in target type"),
                IntErrorKind::NegOverflow => String::from_str("number too small to fit in target type"),
            },
            Error::Json(t) => t.clone(),
            Error::Io(t) => t.clone(),
        }
    }
}

} // verus!
