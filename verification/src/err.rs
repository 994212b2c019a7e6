//! The error value shared by the whole library.

use vstd::prelude::*;

verus! {

/// What went wrong, by the stage of an update attempt that found it.
#[derive(Debug, Clone, Copy, PartialEq, Eq, Structural)]
pub enum ErrorKind {
    /// Raised outside the update pipeline.
    General,
    /// The device identifier could not be obtained or is malformed.
    Identity,
    /// The manifest request was not answered with status 200.
    Fetch,
    /// The manifest body is no valid text or no valid manifest.
    Parse,
    /// The manifest is meant for another object type.
    Mismatch,
    /// No device rule of the manifest matches this device.
    NoDeviceMatch,
    /// The version assigned to the device is no semantic version.
    InvalidVersion,
    /// The manifest address has no path to derive the archive address from.
    InvalidManifestUrl,
    /// The release archive lacks a required entry point.
    InvalidArchive,
    /// A directory rename of the swap failed.
    Swap,
    /// Some other file system or process operation failed.
    Io,
    /// The previous application directory could not be put back.
    Revert,
}

/// An error: its kind and a message for the operator.
#[derive(Debug)]
pub struct Error {
    kind: ErrorKind,
    message: String,
}

/// The mathematical content of an [`Error`].
pub struct ErrorView {
    pub kind: ErrorKind,
    pub message: Seq<char>,
}

impl View for Error {
    type V = ErrorView;

    closed spec fn view(&self) -> ErrorView {
        ErrorView { kind: self.kind, message: self.message@ }
    }
}

impl Error {
    /// An error of the general kind with the given message.
    pub fn new(message: String) -> (e: Error)
        ensures
            e@ == (ErrorView { kind: ErrorKind::General, message: message@ }),
    {
        Error { kind: ErrorKind::General, message }
    }

    /// An error of the given kind with the given message.
    pub fn with_kind(kind: ErrorKind, message: String) -> (e: Error)
        ensures
            e@ == (ErrorView { kind, message: message@ }),
    {
        Error { kind, message }
    }

    /// The kind of this error.
    pub fn kind(&self) -> (k: ErrorKind)
        ensures
            k == self@.kind,
    {
        self.kind
    }

    /// The message of this error.
    pub fn description(&self) -> (m: &str)
        ensures
            m@ == self@.message,
    {
        self.message.as_str()
    }

    /// The message of this error, as an owned string.
    pub fn to_string(&self) -> (m: String)
        ensures
            m@ == self@.message,
    {
        self.message.clone()
    }
}

impl Clone for Error {
    fn clone(&self) -> (e: Self)
        ensures
            e@ == self@,
    {
        Error { kind: self.kind, message: self.message.clone() }
    }
}

/// The content of the error of kind `kind` whose message is `prefix`
/// followed by `detail`.
pub open spec fn fault_of(kind: ErrorKind, prefix: Seq<char>, detail: Seq<char>) -> ErrorView {
    ErrorView { kind, message: prefix + detail }
}

/// The error of kind `kind` whose message is `prefix` followed by `detail`.
pub fn fault(kind: ErrorKind, prefix: &str, detail: &str) -> (e: Error)
    ensures
        e@ == fault_of(kind, prefix@, detail@),
{
    let mut message = prefix.to_owned();
    message.append(detail);
    Error::with_kind(kind, message)
}

} // verus!
