//! The device's identifier, as the application's own `id.sh` prints it.

use crate::err::{fault, fault_of, Error, ErrorKind, ErrorView};
use crate::text::{trim, trimmed};
use crate::update::manifest::{regex_match, Pattern};
use vstd::prelude::*;
use vstd::string::StringSliceAdditionalSpecFns;
use vstd::utf8::{decode_utf8, valid_utf8};

verus! {

/// The form of a device identifier, as a regular expression: a letter, then
/// letters, digits and hyphens, and nothing before or after them.
pub const ID_PATTERN: &'static str = "^[A-Za-z][A-Za-z0-9-]*$";

/// What `std::str::from_utf8` says of bytes that are no valid UTF-8.
pub uninterp spec fn utf8_error(bytes: Seq<u8>) -> Seq<char>;

/// The text that `bytes` encode, or what is wrong with them.
pub open spec fn decoded(bytes: Seq<u8>) -> Result<Seq<char>, Seq<char>> {
    if valid_utf8(bytes) {
        Ok(decode_utf8(bytes))
    } else {
        Err(utf8_error(bytes))
    }
}

/// The device identifier that the outcome of running `id.sh` gives: the
/// output decoded and trimmed, provided the whole of it has the form of an
/// identifier.
pub open spec fn resolved(outcome: Result<Seq<u8>, Seq<char>>) -> Result<Seq<char>, ErrorView> {
    match outcome {
        Err(cause) => Err(fault_of(ErrorKind::Identity, "Fails to execute command: "@, cause)),
        Ok(output) => match decoded(output) {
            Err(cause) => Err(fault_of(ErrorKind::Identity, "UTF8 error: "@, cause)),
            Ok(text) => if regex_match(ID_PATTERN@, trimmed(text)) == Some(true) {
                Ok(trimmed(text))
            } else {
                Err(fault_of(ErrorKind::Identity, "Invalid thing ID: "@, trimmed(text)))
            },
        },
    }
}

/// The view of the outcome of running a command.
pub open spec fn outcome_view(outcome: Result<Vec<u8>, String>) -> Result<Seq<u8>, Seq<char>> {
    match outcome {
        Ok(output) => Ok(output@),
        Err(cause) => Err(cause@),
    }
}

/// Calls `std::str::from_utf8`: the bytes as text exactly when they are valid
/// UTF-8, else the text of the decoding error, which has the name
/// [`utf8_error`].
#[verifier::external_body]
fn utf8_text(bytes: &[u8]) -> (r: Result<&str, String>)
    ensures
        r is Ok <==> valid_utf8(bytes@),
        r matches Ok(s) ==> s.spec_bytes() == bytes@,
        r matches Err(m) ==> m@ == utf8_error(bytes@),
{
    std::str::from_utf8(bytes).map_err(|e| e.to_string())
}

/// Decodes `bytes` as UTF-8 text.
pub fn decode(bytes: &[u8]) -> (r: Result<&str, String>)
    ensures
        match decoded(bytes@) {
            Ok(text) => r matches Ok(s) && s@ == text,
            Err(cause) => r matches Err(m) && m@ == cause,
        },
{
    let r = utf8_text(bytes);
    proof {
        if let Ok(s) = r {
            vstd::utf8::encode_utf8_decode_utf8(s@);
        }
    }
    r
}

/// The device identifier from the outcome of running `id.sh`: its standard
/// output, or why it could not be run.
///
/// Fails with `Identity` if the command did not run, if its output is no
/// valid UTF-8, or if the trimmed output as a whole has not the form of an
/// identifier.
pub fn resolve_id(outcome: Result<Vec<u8>, String>) -> (r: Result<String, Error>)
    ensures
        match resolved(outcome_view(outcome)) {
            Ok(id) => r matches Ok(s) && s@ == id,
            Err(err) => r matches Err(e) && e@ == err,
        },
{
    match outcome {
        Err(cause) => Err(fault(ErrorKind::Identity, "Fails to execute command: ", cause.as_str())),
        Ok(output) => match decode(output.as_slice()) {
            Err(cause) => Err(fault(ErrorKind::Identity, "UTF8 error: ", cause.as_str())),
            Ok(text) => {
                let id = trim(text);
                let pattern = Pattern(String::from_str(ID_PATTERN));
                match pattern.matches(id) {
                    Some(true) => Ok(id.to_owned()),
                    _ => Err(fault(ErrorKind::Identity, "Invalid thing ID: ", id)),
                }
            },
        },
    }
}

} // verus!
