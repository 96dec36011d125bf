//! How a request for a report can fail.

use vstd::prelude::*;

verus! {

#[verifier::external_type_specification]
#[verifier::external_body]
pub struct ExIoError(std::io::Error);

#[verifier::external_type_specification]
#[verifier::external_body]
pub struct ExFromUtf8Error(std::string::FromUtf8Error);

/// Every failure is handed to the caller; none is retried or replaced by a default.
#[derive(Debug)]
pub enum HLedgerError {
    /// The process could not be started or read.
    Io(std::io::Error),
    /// hledger ran and exited unsuccessfully; its diagnostics are kept whole.
    CommandFailed { code: i32, stderr: String },
    /// No hledger executable was found.
    HLedgerNotFound,
    /// hledger's output is not UTF-8.
    InvalidUtf8(std::string::FromUtf8Error),
    /// hledger's output is not one JSON document.
    Json(serde_json::Error),
    /// The document is JSON, but not of the shape the report has.
    ParseError(String),
}

/// A schema error with the given reason.
pub fn parse_error(reason: &str) -> (r: HLedgerError)
    ensures
        r matches HLedgerError::ParseError(s) && s@ == reason@,
{
    HLedgerError::ParseError(reason.to_string())
}

} // verus!
