//! The course of a run whose standard input the caller writes.
//!
//! Spawning the child, letting the caller write and waiting for the exit
//! each touch the operating system and are done by whoever drives the run.
//! What to do next is decided here: the driver starts with [`start`],
//! performs the [`Action`] it is given, and reports what happened to
//! [`advance`], until it is told to return.

use vstd::prelude::*;

use crate::error::{CommandError, Error, ErrorView};
use crate::launch::{outcome, outcome_of};
use crate::output::{Captured, Output, OutputView};

verus! {

/// Where a run stands.
#[derive(Clone, Copy, Debug, PartialEq, Eq, Structural)]
pub enum Stage {
    /// Nothing has been started yet.
    Created,
    /// The child is alive and the caller's function writes to its input.
    WritingStdin,
    /// The input is written; the child is being waited for.
    Waiting,
    /// The child exited successfully.
    Succeeded,
    /// The child exited unsuccessfully.
    ProcessFailed,
    /// The child could not be spawned or waited for.
    IoFailed,
    /// The caller's function failed. The child was not waited for and may
    /// still be running.
    Abandoned,
}

/// What the driver observed while performing an [`Action`].
#[derive(Debug)]
pub enum Event {
    /// The child was spawned.
    Spawned,
    /// The child could not be spawned.
    SpawnFailed(std::io::Error),
    /// The caller's function returned without an error.
    Written,
    /// The caller's function returned an error of its own.
    WriteFailed,
    /// Waiting for the child ended with this report.
    Collected(Result<Captured, CommandError>),
}

/// What the driver has to do next.
#[derive(Debug)]
pub enum Action {
    /// Spawn the child with its standard input and output piped.
    Spawn,
    /// Call the caller's function with the child's standard input.
    Write,
    /// Wait for the child to exit and collect its output.
    Wait,
    /// Return this result; the run is over.
    Return(Result<Output, Error>),
    /// Return the error of the caller's function; the run is over.
    Forward,
}

/// An [`Action`] with its output as text.
pub enum ActionView {
    /// Spawn the child.
    Spawn,
    /// Call the caller's function.
    Write,
    /// Wait for the child.
    Wait,
    /// Return this result.
    Return(Result<OutputView, ErrorView>),
    /// Return the error of the caller's function.
    Forward,
}

impl View for Action {
    type V = ActionView;

    open spec fn view(&self) -> ActionView {
        match *self {
            Action::Spawn => ActionView::Spawn,
            Action::Write => ActionView::Write,
            Action::Wait => ActionView::Wait,
            Action::Return(Ok(output)) => ActionView::Return(Ok(output@)),
            Action::Return(Err(error)) => ActionView::Return(Err(error@)),
            Action::Forward => ActionView::Forward,
        }
    }
}

impl Stage {
    /// Whether the run is over in this stage.
    pub open spec fn is_final(&self) -> bool {
        *self == Stage::Succeeded || *self == Stage::ProcessFailed || *self == Stage::IoFailed
            || *self == Stage::Abandoned
    }

    /// Whether the run is over.
    #[verifier::when_used_as_spec(is_final)]
    pub fn finished(&self) -> (over: bool)
        ensures
            over == self.is_final(),
    {
        match self {
            Stage::Created | Stage::WritingStdin | Stage::Waiting => false,
            _ => true,
        }
    }
}

/// The stage in which a run ends with `result`.
pub open spec fn stage_of(result: Result<OutputView, ErrorView>) -> Stage {
    match result {
        Ok(_) => Stage::Succeeded,
        Err(ErrorView::Failure(_, _)) => Stage::ProcessFailed,
        Err(ErrorView::Io(_)) => Stage::IoFailed,
    }
}

/// The stage that follows `stage` on `event` and what is to be done then,
/// or `None` where `event` is not an answer to what `stage` asked for.
pub open spec fn step(stage: Stage, event: Event) -> Option<(Stage, ActionView)> {
    match (stage, event) {
        (Stage::Created, Event::Spawned) => Some((Stage::WritingStdin, ActionView::Write)),
        (Stage::Created, Event::SpawnFailed(error)) => Some(
            (Stage::IoFailed, ActionView::Return(Err(ErrorView::Io(error)))),
        ),
        (Stage::WritingStdin, Event::Written) => Some((Stage::Waiting, ActionView::Wait)),
        (Stage::WritingStdin, Event::WriteFailed) => Some((Stage::Abandoned, ActionView::Forward)),
        (Stage::Waiting, Event::Collected(report)) => Some(
            (stage_of(outcome_of(report)), ActionView::Return(outcome_of(report))),
        ),
        _ => None,
    }
}

/// A new run and the first thing to do for it.
pub fn start() -> (first: (Stage, Action))
    ensures
        first.0 == Stage::Created,
        first.1@ == ActionView::Spawn,
{
    (Stage::Created, Action::Spawn)
}

/// Decides how the run goes on after `event`.
///
/// A spawned child is written to, a written one is waited for, and what
/// waiting reports decides the result as [`outcome`] says. A child that
/// could not be spawned ends the run with [`Error::Io`]. An error of the
/// caller's function ends it at once: the child is not waited for.
/// `None` comes back, and nothing is to be done, where `event` does not
/// answer what `stage` asked for; so it does in every final stage.
pub fn advance(stage: Stage, event: Event) -> (next: Option<(Stage, Action)>)
    ensures
        match next {
            Some((stage_after, action)) => step(stage, event) == Some((stage_after, action@)),
            None => step(stage, event) is None,
        },
{
    match stage {
        Stage::Created => match event {
            Event::Spawned => Some((Stage::WritingStdin, Action::Write)),
            Event::SpawnFailed(error) => Some((Stage::IoFailed, Action::Return(Err(Error::Io(error))))),
            _ => None,
        },
        Stage::WritingStdin => match event {
            Event::Written => Some((Stage::Waiting, Action::Wait)),
            Event::WriteFailed => Some((Stage::Abandoned, Action::Forward)),
            _ => None,
        },
        Stage::Waiting => match event {
            Event::Collected(report) => {
                let result = outcome(report);
                let stage_after = match &result {
                    Ok(_) => Stage::Succeeded,
                    Err(Error::Failure(_, _)) => Stage::ProcessFailed,
                    Err(Error::Io(_)) => Stage::IoFailed,
                };
                Some((stage_after, Action::Return(result)))
            },
            _ => None,
        },
        _ => None,
    }
}

/// A run that is over takes no further event: it is neither restarted nor
/// used again.
pub proof fn lemma_final_stage_stays(stage: Stage, event: Event)
    requires
        stage.is_final(),
    ensures
        step(stage, event) is None,
{
}

/// Every step either ends the run with a result or an error of the caller,
/// or asks for more work; it ends the run exactly when it hands out no
/// further work.
pub proof fn lemma_run_ends_with_return(stage: Stage, event: Event)
    requires
        step(stage, event) is Some,
    ensures
        ({
            let (stage_after, action) = step(stage, event)->0;
            &&& !stage.is_final()
            &&& stage_after.is_final() <==> (action is Return || action is Forward)
            &&& action matches ActionView::Return(result) ==> stage_after == stage_of(result)
            &&& action is Forward <==> stage_after == Stage::Abandoned
        }),
{
}

/// Output is handed out only when waiting for the child has ended: as the
/// result of a run that succeeded, or inside the failure of one whose
/// process failed.
pub proof fn lemma_output_comes_from_waiting(stage: Stage, event: Event)
    requires
        step(stage, event) is Some,
    ensures
        ({
            let (stage_after, action) = step(stage, event)->0;
            &&& action matches ActionView::Return(Ok(_)) ==> stage == Stage::Waiting && stage_after
                == Stage::Succeeded
            &&& action matches ActionView::Return(Err(ErrorView::Failure(_, _))) ==> stage
                == Stage::Waiting && stage_after == Stage::ProcessFailed
        }),
{
}

/// The stage a run is in after `events`, seen one after the other from
/// `stage` on, or `None` where one of them was refused.
pub open spec fn stage_reached(stage: Stage, events: Seq<Event>) -> Option<Stage>
    decreases events.len(),
{
    if events.len() == 0 {
        Some(stage)
    } else {
        match step(stage, events[0]) {
            Some((next, _)) => stage_reached(next, events.drop_first()),
            None => None,
        }
    }
}

/// A run takes three events at most. One that ends with the child's exit,
/// successful or not, has seen exactly three: the child was spawned, the
/// caller's function wrote and returned, and only then was the child
/// waited for. One that is abandoned has seen the spawn and the failure
/// of the caller's function, and no wait. One that ends with an I/O error
/// failed to spawn the child, or to wait for it after the writing.
pub proof fn lemma_course_of_a_run(events: Seq<Event>)
    requires
        stage_reached(Stage::Created, events) is Some,
    ensures
        events.len() <= 3,
        ({
            let last = stage_reached(Stage::Created, events)->0;
            &&& last == Stage::Succeeded || last == Stage::ProcessFailed ==> events.len() == 3
                && events[0] is Spawned && events[1] is Written && events[2] is Collected
            &&& last == Stage::Abandoned ==> events.len() == 2 && events[0] is Spawned
                && events[1] is WriteFailed
            &&& last == Stage::IoFailed ==> (events.len() == 1 && events[0] is SpawnFailed)
                || (events.len() == 3 && events[0] is Spawned && events[1] is Written
                && events[2] is Collected)
            &&& last == Stage::Created <==> events.len() == 0
        }),
{
    reveal_with_fuel(stage_reached, 5);
}

} // verus!
