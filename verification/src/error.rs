//! The one error type threaded through every fallible operation.
//!
//! One variant per failure kind: building a command from incomplete
//! builder input, validating a parameter set against the per-command
//! rules, a transport failure reported by the caller's HTTP client,
//! and a decode failure while reading a response document.

use vstd::prelude::*;

verus! {

/// Every failure the library can report.
///
/// `ParseError` is the single uniform decode failure: a missing
/// required attribute, a malformed numeric or boolean attribute
/// value, or a syntax error in the underlying XML stream.
#[derive(Debug, PartialEq, Eq)]
pub enum Error {
    /// A builder was asked to run without one of its required inputs.
    BuildCommandError,
    /// The parameter set violates the per-command validity table.
    BuildUrlError,
    /// A transport failure, carried as the transport's own message.
    HttpError(String),
    /// A response document could not be decoded.
    ParseError,
}

impl Error {
    /// A short human-readable description of the failure.
    pub fn describe(&self) -> (r: &'static str)
        ensures
            r@ == match self {
                Error::BuildCommandError => "Error Building Command"@,
                Error::BuildUrlError => "Error Building Url"@,
                Error::HttpError(_) => "HTTP Error"@,
                Error::ParseError => "Error Parsing Nextbus API"@,
            },
    {
        match self {
            Error::BuildCommandError => "Error Building Command",
            Error::BuildUrlError => "Error Building Url",
            Error::HttpError(_) => "HTTP Error",
            Error::ParseError => "Error Parsing Nextbus API",
        }
    }
}

} // verus!
