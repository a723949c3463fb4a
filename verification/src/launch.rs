//! Running a command and telling how it went.

use vstd::prelude::*;

use checked_command::CheckedCommand;

use crate::error::{failure_of, CommandError, Error, ErrorView};
use crate::output::{decoded, silent, text_of, Captured, Output, OutputView};
use crate::status::ExitStatus;
use crate::words::{can_split, setup_process, splittable, CommandLine};

verus! {

/// Starts `program` with `args`, waits until it exits and collects what it
/// printed, with `CheckedCommand::new`, `args` and `output`.
///
/// Trusted: a failure is reported only for a status that is not
/// successful, and then with the output that was collected. Which of the
/// three reports comes back depends on the machine, so nothing else is
/// claimed. The call blocks for as long as the process runs.
#[verifier::external_body]
fn checked_output(program: &String, args: &Vec<String>) -> (report: Result<
    Captured,
    CommandError,
>)
    ensures
        report matches Err(CommandError::Failure(status, captured)) ==> !status.is_success()
            && captured is Some,
{
    match CheckedCommand::new(program).args(args).output() {
        Ok(out) => Ok(Captured { stdout: out.stdout, stderr: out.stderr }),
        Err(checked_command::Error::Io(error)) => Err(CommandError::Io(error)),
        Err(checked_command::Error::Failure(status, out)) => Err(
            CommandError::Failure(
                ExitStatus { code: status.code() },
                out.map(|out| Captured { stdout: out.stdout, stderr: out.stderr }),
            ),
        ),
    }
}

/// A result with its output as text.
pub open spec fn result_view(result: Result<Output, Error>) -> Result<OutputView, ErrorView> {
    match result {
        Ok(output) => Ok(output@),
        Err(error) => Err(error@),
    }
}

/// What a run amounts to, given what launching the process reported: its
/// decoded output where it ended well, and else the error that the report
/// becomes.
pub open spec fn outcome_of(report: Result<Captured, CommandError>) -> Result<
    OutputView,
    ErrorView,
> {
    match report {
        Ok(captured) => Ok(decoded(captured)),
        Err(error) => Err(failure_of(error)),
    }
}

/// Turns the report of a launched process into the result of the run.
///
/// A process that exited successfully gives its output, both streams
/// decoded. One that exited unsuccessfully gives [`Error::Failure`] with
/// its status and its decoded output. One that could not be started or
/// waited for gives [`Error::Io`] with the system's error.
pub fn outcome(report: Result<Captured, CommandError>) -> (result: Result<Output, Error>)
    ensures
        result_view(result) == outcome_of(report),
{
    match report {
        Ok(captured) => Ok(Output::decode(&captured)),
        Err(error) => Err(Error::from(error)),
    }
}

impl CommandLine {
    /// Runs the program with its arguments and waits for it to exit.
    ///
    /// The result is [`outcome`] of what the launch reported. Whatever
    /// that was, a failure carries a status that is not successful.
    pub fn output(&self) -> (result: Result<Output, Error>)
        ensures
            result matches Err(Error::Failure(status, _)) ==> !status.is_success(),
    {
        outcome(checked_output(&self.program, &self.args))
    }
}

/// Runs the given command
///
/// The command line is split into words: the first names the program, the
/// others are its arguments. The program is started, and the call returns
/// when it has exited.
///
/// # Arguments
///
/// `cmd` - A string slice containing the command to be run. It has to be
/// [`splittable`]: [`can_split`] tells whether it is, and [`try_run`] tests
/// it before it runs anything.
///
/// # Errors
///
/// if the exit status is not successful or a `io::Error` was returned.
/// The result is [`outcome`] of what launching the program reported.
pub fn run(cmd: &str) -> (result: Result<Output, Error>)
    requires
        splittable(cmd@),
    ensures
        result matches Err(Error::Failure(status, _)) ==> !status.is_success(),
{
    let line = setup_process(cmd);
    line.output()
}

/// Runs the given command if it can be split into words.
///
/// Returns `None`, and starts nothing, for a command line that is empty or
/// that the splitter cannot read; else what [`run`] returns.
pub fn try_run(cmd: &str) -> (result: Option<Result<Output, Error>>)
    ensures
        result is Some <==> splittable(cmd@),
        result matches Some(Err(Error::Failure(status, _))) ==> !status.is_success(),
{
    if can_split(cmd) {
        Some(run(cmd))
    } else {
        None
    }
}

/// A process that exits successfully gives success, and the text of each
/// stream is the decoding of exactly the bytes it wrote there.
pub proof fn lemma_success_gives_output(captured: Captured)
    ensures
        outcome_of(Ok(captured)) == Ok::<OutputView, ErrorView>(
            OutputView {
                stdout: text_of(captured.stdout@),
                stderr: text_of(captured.stderr@),
            },
        ),
{
}

/// A process that exits unsuccessfully gives a failure that holds the very
/// status it exited with and the decoded text of what it wrote; where
/// nothing was collected, the text of both streams is empty.
pub proof fn lemma_failure_keeps_status_and_output(
    status: ExitStatus,
    captured: Option<Captured>,
)
    ensures
        outcome_of(Err(CommandError::Failure(status, captured))) == Err::<OutputView, ErrorView>(
            ErrorView::Failure(
                status,
                match captured {
                    Some(captured) => decoded(captured),
                    None => silent(),
                },
            ),
        ),
{
}

/// A process that cannot be started or waited for gives the I/O error of
/// the operating system, unchanged, and no output.
pub proof fn lemma_io_error_is_kept(error: std::io::Error)
    ensures
        outcome_of(Err(CommandError::Io(error))) == Err::<OutputView, ErrorView>(
            ErrorView::Io(error),
        ),
{
}

/// Output appears in a result only as the success of a run or inside a
/// process failure, and a result is a success exactly when the launch
/// reported one.
pub proof fn lemma_result_follows_report(report: Result<Captured, CommandError>)
    ensures
        outcome_of(report) is Ok <==> report is Ok,
        outcome_of(report) matches Err(ErrorView::Io(_)) <==> report matches Err(
            CommandError::Io(_),
        ),
        outcome_of(report) matches Err(ErrorView::Failure(_, _)) <==> report matches Err(
            CommandError::Failure(_, _),
        ),
{
}

} // verus!
