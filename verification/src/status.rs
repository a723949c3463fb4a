//! How a finished process ended.

use vstd::prelude::*;

verus! {

/// The exit status of a process that ran to completion.
///
/// `code` is the exit code the process returned, or `None` when it ended
/// without one (on Unix: when a signal terminated it).
#[derive(Clone, Copy, Debug)]
pub struct ExitStatus {
    /// The exit code, if the process returned one.
    pub code: Option<i32>,
}

impl ExitStatus {
    /// A status is successful exactly when the process exited with code zero.
    pub open spec fn is_success(&self) -> bool {
        self.code == Some(0i32)
    }

    /// The status of a process that ended with `code`.
    pub fn new(code: Option<i32>) -> (status: ExitStatus)
        ensures
            status.code == code,
    {
        ExitStatus { code }
    }

    /// The exit code, if the process returned one.
    pub fn code(&self) -> (code: Option<i32>)
        ensures
            code == self.code,
    {
        self.code
    }

    /// Whether the process ended successfully.
    #[verifier::when_used_as_spec(is_success)]
    pub fn success(&self) -> (ok: bool)
        ensures
            ok == self.is_success(),
    {
        match self.code {
            Some(code) => code == 0,
            None => false,
        }
    }
}

} // verus!
