//! How an update attempt ends.

use crate::err::{Error, ErrorKind, ErrorView};
use vstd::prelude::*;

verus! {

/// The outcome of an update attempt that did not fail hard.
#[derive(Debug)]
pub enum ExecutionStatus {
    /// Nothing was installed, for the reason given. The application that was
    /// installed before is still in place.
    NoUpdate(String),
    /// The new version was installed and has run; its exit code, if it
    /// exited with one.
    AppTerminated(Option<i32>),
}

/// The mathematical content of an [`ExecutionStatus`].
pub enum StatusView {
    NoUpdate(Seq<char>),
    AppTerminated(Option<i32>),
}

impl View for ExecutionStatus {
    type V = StatusView;

    open spec fn view(&self) -> StatusView {
        match self {
            ExecutionStatus::NoUpdate(reason) => StatusView::NoUpdate(reason@),
            ExecutionStatus::AppTerminated(code) => StatusView::AppTerminated(*code),
        }
    }
}

impl Clone for ExecutionStatus {
    fn clone(&self) -> (s: Self)
        ensures
            s@ == self@,
    {
        match self {
            ExecutionStatus::NoUpdate(reason) => ExecutionStatus::NoUpdate(reason.clone()),
            ExecutionStatus::AppTerminated(code) => ExecutionStatus::AppTerminated(*code),
        }
    }
}

/// The view of how an attempt ends.
pub open spec fn outcome_view(outcome: Result<ExecutionStatus, Error>) -> Result<
    StatusView,
    ErrorView,
> {
    match outcome {
        Ok(status) => Ok(status@),
        Err(e) => Err(e@),
    }
}

/// What the caller of an attempt gets to see: every error but one of kind
/// `Revert` has become `NoUpdate` with the error's message.
pub open spec fn surfaced(outcome: Result<StatusView, ErrorView>) -> Result<StatusView, ErrorView> {
    match outcome {
        Ok(status) => Ok(status),
        Err(e) => if e.kind == ErrorKind::Revert {
            Err(e)
        } else {
            Ok(StatusView::NoUpdate(e.message))
        },
    }
}

/// Turns every error but one of kind `Revert` into `NoUpdate` with the
/// error's message: after such an error the application that was installed
/// before is still in place and can be run.
pub fn conclude(outcome: Result<ExecutionStatus, Error>) -> (r: Result<ExecutionStatus, Error>)
    ensures
        outcome_view(r) == surfaced(outcome_view(outcome)),
{
    match outcome {
        Ok(status) => Ok(status),
        Err(e) => match e.kind() {
            ErrorKind::Revert => Err(e),
            _ => Ok(ExecutionStatus::NoUpdate(e.to_string())),
        },
    }
}

/// Whether the application that is installed is to be run once the attempt
/// is over: it is, unless the new version has just run or the attempt failed
/// hard.
pub fn runs_installed(outcome: &Result<ExecutionStatus, Error>) -> (r: bool)
    ensures
        r == (surfaced(outcome_view(*outcome)) matches Ok(StatusView::NoUpdate(_))),
{
    match outcome {
        Ok(ExecutionStatus::NoUpdate(_)) => true,
        Ok(ExecutionStatus::AppTerminated(_)) => false,
        Err(e) => match e.kind() {
            ErrorKind::Revert => false,
            _ => true,
        },
    }
}

} // verus!
