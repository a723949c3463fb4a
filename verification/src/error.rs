//! The two ways a run can fail.

use vstd::prelude::*;

use crate::output::{decoded, silent, Captured, Output, OutputView};
use crate::status::ExitStatus;

verus! {

/// `std::io::Error`, the operating system's report of a failed operation.
///
/// Trusted: the type is only carried through; nothing is read from it.
#[verifier::external_type_specification]
#[verifier::external_body]
pub struct ExIoError(std::io::Error);

/// What launching and collecting a process reports when it does not end
/// well, before any of its output is decoded.
#[derive(Debug)]
pub enum CommandError {
    /// The process could not be started or waited for.
    Io(std::io::Error),
    /// The process ran and ended with an unsuccessful status. The second
    /// part is what it printed, where that was collected.
    Failure(ExitStatus, Option<Captured>),
}

/// Error variant for [`run`](crate::run).
#[derive(Debug)]
pub enum Error {
    /// I/O error
    Io(std::io::Error),
    /// Process error. It holds two parts: first argument is the exit
    /// code and the second is the output (stdout and stderr).
    Failure(ExitStatus, Output),
}

/// Result alias with crate's Error value
pub type Result<T> = std::result::Result<T, Error>;

/// An [`Error`] with its output as text.
pub enum ErrorView {
    /// The system's error, as it is.
    Io(std::io::Error),
    /// The status of the process and the texts of its output.
    Failure(ExitStatus, OutputView),
}

impl View for Error {
    type V = ErrorView;

    open spec fn view(&self) -> ErrorView {
        match *self {
            Error::Io(error) => ErrorView::Io(error),
            Error::Failure(status, output) => ErrorView::Failure(status, output@),
        }
    }
}

/// The error that `error` becomes: an I/O failure is kept as it is, a
/// process failure keeps its status and gets its output decoded, or no
/// output at all where none was collected.
pub open spec fn failure_of(error: CommandError) -> ErrorView {
    match error {
        CommandError::Io(error) => ErrorView::Io(error),
        CommandError::Failure(status, Some(captured)) => ErrorView::Failure(
            status,
            decoded(captured),
        ),
        CommandError::Failure(status, None) => ErrorView::Failure(status, silent()),
    }
}

impl Error {
    /// Turns the report of a failed launch into this crate's error.
    pub fn from(error: CommandError) -> (converted: Error)
        ensures
            converted@ == failure_of(error),
    {
        match error {
            CommandError::Io(e) => Error::Io(e),
            CommandError::Failure(ex, err) => Error::Failure(
                ex,
                match err {
                    Some(e) => Output::decode(&e),
                    None => Output::default(),
                },
            ),
        }
    }
}

} // verus!
