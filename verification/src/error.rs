//! The errors of the lifecycle operations.

use vstd::prelude::*;

verus! {

/// Why a lifecycle operation did not go through.
#[derive(Debug, PartialEq, Eq)]
pub enum Error {
    /// An argument that the operation cannot work with.
    InvalidArgument(String),
    /// The sandbox refused or failed the operation; the text is the
    /// sandbox's own, unchanged.
    Sandbox(String),
    /// Any other failure, with its description.
    Others(String),
}

/// An `Error` with its texts as sequences of characters.
pub enum ErrorView {
    InvalidArgument(Seq<char>),
    Sandbox(Seq<char>),
    Others(Seq<char>),
}

impl View for Error {
    type V = ErrorView;

    open spec fn view(&self) -> ErrorView {
        match self {
            Error::InvalidArgument(text) => ErrorView::InvalidArgument(text@),
            Error::Sandbox(text) => ErrorView::Sandbox(text@),
            Error::Others(text) => ErrorView::Others(text@),
        }
    }
}

/// A failure outside the calling context while work was done on its behalf.
#[derive(Debug, PartialEq, Eq)]
pub enum WireError {
    /// The work ran in the isolated context and failed there.
    Task(String),
    /// The isolated context could not be reached, or gave no answer.
    Unreachable(String),
}

impl WireError {
    /// The description that the failure carries.
    pub open spec fn description(self) -> Seq<char> {
        match self {
            WireError::Task(text) => text@,
            WireError::Unreachable(text) => text@,
        }
    }

    /// Whether the isolated context itself failed, rather than the work
    /// that it was given.
    pub fn is_unreachable(&self) -> (res: bool)
        ensures
            res == (self is Unreachable),
    {
        match self {
            WireError::Task(_) => false,
            WireError::Unreachable(_) => true,
        }
    }

    /// The error that a caller of the isolated context hands on. Neither
    /// kind of failure is retried: both end the operation with the
    /// failure's description.
    pub fn into_error(self) -> (err: Error)
        ensures
            err@ == ErrorView::Others(self.description()),
    {
        match self {
            WireError::Task(text) => Error::Others(text),
            WireError::Unreachable(text) => Error::Others(text),
        }
    }
}

/// What an operation on the sandbox comes to: done, or the sandbox's own
/// error handed on unchanged.
pub fn sandbox_result(reply: Result<(), String>) -> (res: Result<(), Error>)
    ensures
        match reply {
            Ok(_) => res is Ok,
            Err(text) => res matches Err(err) && err@ == ErrorView::Sandbox(text@),
        },
{
    match reply {
        Ok(()) => Ok(()),
        Err(text) => Err(Error::Sandbox(text)),
    }
}

} // verus!
