//! What an hledger run's outcome means, once the caller has run it.
//!
//! Starting the process and waiting for it is left to the caller; these
//! functions classify what it observed.

use crate::error::HLedgerError;
use vstd::prelude::*;
use vstd::utf8::{decode_utf8, valid_utf8};

verus! {

/// The name of the executable when no other is configured; found on the search path.
pub const DEFAULT_BINARY: &'static str = "hledger";

/// The text that lossy UTF-8 decoding gives for bytes; it depends on the bytes alone.
pub uninterp spec fn lossy_text(bytes: Seq<u8>) -> Seq<char>;

/// Relies on String::from_utf8: the text when the bytes are valid UTF-8, else an error.
#[verifier::external_body]
fn decode_strict(bytes: Vec<u8>) -> (r: Result<String, std::string::FromUtf8Error>)
    ensures
        r is Ok == valid_utf8(bytes@),
        r matches Ok(s) ==> s@ == decode_utf8(bytes@),
{
    String::from_utf8(bytes)
}

/// Relies on String::from_utf8_lossy: valid UTF-8 is decoded unchanged, and
/// each invalid sequence becomes U+FFFD, so no bytes give no text only when
/// there are none.
#[verifier::external_body]
fn decode_lossy(bytes: &Vec<u8>) -> (r: String)
    ensures
        r@ == lossy_text(bytes@),
        valid_utf8(bytes@) ==> r@ == decode_utf8(bytes@),
        bytes@.len() > 0 ==> r@.len() > 0,
{
    String::from_utf8_lossy(bytes.as_slice()).into_owned()
}

/// The executable to run: the configured one, or `hledger`.
pub fn hledger_binary<'a>(configured: Option<&'a str>) -> (r: &'a str)
    ensures
        configured matches Some(c) ==> r@ == c@,
        configured is None ==> r@ == DEFAULT_BINARY@,
{
    match configured {
        Some(c) => c,
        None => DEFAULT_BINARY,
    }
}

/// A process that could not be started: a missing executable, or another I/O failure.
pub fn launch_error(not_found: bool, error: std::io::Error) -> (r: HLedgerError)
    ensures
        not_found ==> r is HLedgerNotFound,
        !not_found ==> r == HLedgerError::Io(error),
{
    if not_found {
        HLedgerError::HLedgerNotFound
    } else {
        HLedgerError::Io(error)
    }
}

/// What a finished run yields: an unsuccessful exit is `CommandFailed` with
/// the exit code (-1 when there is none) and all of stderr; a successful one
/// is its output, which must be UTF-8.
pub fn command_output(success: bool, code: Option<i32>, stdout: Vec<u8>, stderr: &Vec<u8>) -> (r: Result<String, HLedgerError>)
    ensures
        !success ==> (r matches Err(HLedgerError::CommandFailed { code: c, stderr: s }) && {
            &&& c == (match code {
                Some(k) => k,
                None => -1i32,
            })
            &&& code != Some(0i32) ==> c != 0
            &&& s@ == lossy_text(stderr@)
            &&& stderr@.len() > 0 ==> s@.len() > 0
        }),
        success ==> {
            &&& r is Ok == valid_utf8(stdout@)
            &&& r matches Ok(t) ==> t@ == decode_utf8(stdout@)
            &&& r matches Err(e) ==> e is InvalidUtf8
        },
{
    if !success {
        let code = match code {
            Some(k) => k,
            None => -1,
        };
        return Err(HLedgerError::CommandFailed { code, stderr: decode_lossy(stderr) });
    }
    match decode_strict(stdout) {
        Ok(text) => Ok(text),
        Err(e) => Err(HLedgerError::InvalidUtf8(e)),
    }
}

} // verus!
