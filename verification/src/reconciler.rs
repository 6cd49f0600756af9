//! The decisions of one reconciliation cycle.
//!
//! A cycle alternates decisions with work that only the surrounding program
//! can do: running the command and writing the status. The decisions are the
//! three functions of this module, each from what is known so far to what is
//! to happen next:
//!
//! 1. [`begin`] opens the cycle on the plan's current status. A plan that has
//!    succeeded is left alone; for any other the command is to be run.
//! 2. [`record`] takes what running the command gave. Where the retry
//!    ceiling is reached the execution is dropped and the cycle ends;
//!    otherwise the attempt is counted and the result replaced, and the new
//!    status is to be written.
//! 3. [`conclude`] takes what writing the status gave and says how the cycle
//!    ended.
//!
//! A cycle that ended in an error is answered by [`error_policy`].
//!
//! The retry ceiling is compared with the attempts counted before the
//! current one, and only after the command has run: with a ceiling of `n`,
//! at most `n` executions are recorded, and an exhausted plan still runs its
//! command on every trigger, to no effect on its status.

use crate::execution::{execution_result, Execution, ExecutionView, SpawnFailure, SpawnFailureView};
use crate::model::{InstructionView, PlanSpec, PlanStatus, PlanStatusView};
use vstd::prelude::*;

verus! {

/// Seconds to wait before a cycle that ended in an error is tried again.
pub const REQUEUE_DELAY_SECONDS: u64 = 1;

/// What the scheduler is asked to do with a plan once a cycle is over.
#[derive(Clone, Copy, Debug, PartialEq, Eq)]
pub enum Action {
    /// Do nothing until the plan changes.
    AwaitChange,
    /// Reconcile the plan again once this many seconds have passed.
    Requeue { seconds: u64 },
}

/// Why a cycle failed.
#[derive(Debug, PartialEq, Eq)]
pub enum Error {
    /// The command could not be started.
    Exec(SpawnFailure),
    /// The command wrote bytes that are not valid UTF-8.
    Utf8Error(core::str::Utf8Error),
    /// The status could not be written; the text says why.
    Patch(String),
}

/// What is to happen once a cycle has been opened.
#[derive(Debug, PartialEq, Eq)]
pub enum Begun {
    /// The cycle is over, with this action for the scheduler.
    Finish(Action),
    /// Run the command with these arguments, then hand the execution to
    /// [`record`].
    Execute { command: String, args: Vec<String> },
}

/// What is to happen once the command has been run.
#[derive(Debug, PartialEq, Eq)]
pub enum Recorded {
    /// The cycle is over, with this to report to the scheduler.
    Finish(Result<Action, Error>),
    /// Write this status to the store, then hand what the write gave to
    /// [`conclude`].
    Persist(PlanStatus),
}

/// Mathematical model of an [`Error`]. Of a decoding error only its kind is
/// modelled.
pub enum ErrorView {
    Exec(SpawnFailureView),
    Utf8Error,
    Patch(Seq<char>),
}

/// Mathematical model of a [`Begun`].
pub enum BegunView {
    Finish(Action),
    Execute { command: Seq<char>, args: Seq<Seq<char>> },
}

/// Mathematical model of a [`Recorded`].
pub enum RecordedView {
    Finish(Result<Action, ErrorView>),
    Persist(PlanStatusView),
}

impl View for Error {
    type V = ErrorView;

    open spec fn view(&self) -> ErrorView {
        match self {
            Error::Exec(failure) => ErrorView::Exec(failure@),
            Error::Utf8Error(_) => ErrorView::Utf8Error,
            Error::Patch(reason) => ErrorView::Patch(reason@),
        }
    }
}

/// The model of how a cycle ended.
pub open spec fn ending_view(ending: Result<Action, Error>) -> Result<Action, ErrorView> {
    match ending {
        Ok(action) => Ok(action),
        Err(error) => Err(error@),
    }
}

/// The model of what writing the status gave.
pub open spec fn write_view(written: Result<(), String>) -> Result<(), Seq<char>> {
    match written {
        Ok(_) => Ok(()),
        Err(reason) => Err(reason@),
    }
}

impl View for Begun {
    type V = BegunView;

    open spec fn view(&self) -> BegunView {
        match self {
            Begun::Finish(action) => BegunView::Finish(*action),
            Begun::Execute { command, args } => BegunView::Execute {
                command: command@,
                args: args.deep_view(),
            },
        }
    }
}

impl View for Recorded {
    type V = RecordedView;

    open spec fn view(&self) -> RecordedView {
        match self {
            Recorded::Finish(ending) => RecordedView::Finish(ending_view(*ending)),
            Recorded::Persist(status) => RecordedView::Persist(status@),
        }
    }
}

impl PlanStatusView {
    /// Whether the last recorded execution exited with code zero. Success is
    /// terminal: such a plan is never run again.
    pub open spec fn succeeded(self) -> bool {
        self.result.exit_code == Some(0i32)
    }

    /// The status after one more execution has been recorded: the attempt is
    /// counted, and the result is that of the execution alone.
    pub open spec fn recording(self, execution: ExecutionView) -> PlanStatusView {
        PlanStatusView { attempt: self.attempt + 1, result: execution.result() }
    }
}

/// Whether the retry ceiling forbids recording another execution: a ceiling
/// is set, and the attempts counted so far have reached it.
pub open spec fn exhausted(instruction: InstructionView, status: PlanStatusView) -> bool {
    match instruction.retry_times {
        Some(times) => times <= status.attempt,
        None => false,
    }
}

/// What opening a cycle decides.
pub open spec fn begin_spec(instruction: InstructionView, status: PlanStatusView) -> BegunView {
    if status.succeeded() {
        BegunView::Finish(Action::AwaitChange)
    } else {
        BegunView::Execute { command: instruction.command, args: instruction.arguments() }
    }
}

/// What is decided of an execution.
pub open spec fn record_spec(
    instruction: InstructionView,
    status: PlanStatusView,
    execution: ExecutionView,
) -> RecordedView {
    if exhausted(instruction, status) {
        RecordedView::Finish(Ok(Action::AwaitChange))
    } else if !execution.decodable() {
        RecordedView::Finish(Err(ErrorView::Utf8Error))
    } else {
        RecordedView::Persist(status.recording(execution))
    }
}

/// How a cycle ends once the write of its status has been tried.
pub open spec fn conclude_spec(execution: ExecutionView, written: Result<(), Seq<char>>) -> Result<
    Action,
    ErrorView,
> {
    match written {
        Err(reason) => Err(ErrorView::Patch(reason)),
        Ok(_) => match execution {
            ExecutionView::SpawnFailed(failure) => Err(ErrorView::Exec(failure)),
            ExecutionView::Completed(_) => Ok(Action::AwaitChange),
        },
    }
}

/// Copies a list of strings.
fn clone_texts(texts: &Vec<String>) -> (copy: Vec<String>)
    ensures
        copy.deep_view() == texts.deep_view(),
{
    let mut copy: Vec<String> = Vec::new();
    let mut i: usize = 0;
    while i < texts.len()
        invariant
            i <= texts.len(),
            copy.len() == i,
            forall|j: int| 0 <= j < i ==> copy[j]@ == texts[j]@,
        decreases texts.len() - i,
    {
        copy.push(texts[i].clone());
        i += 1;
    }
    copy
}

/// Opens a cycle on the plan's current status.
///
/// A plan whose last execution exited with code zero is left alone: nothing
/// is run and nothing is written. For any other plan the command is to be
/// run with its arguments, whatever the attempts counted so far.
pub fn begin(spec: &PlanSpec, status: &PlanStatus) -> (begun: Begun)
    ensures
        begun@ == begin_spec(spec@.instruction, status@),
{
    let succeeded = match status.result.exit_code {
        Some(code) => code == 0,
        None => false,
    };
    if succeeded {
        return Begun::Finish(Action::AwaitChange);
    }
    let args = match &spec.instruction.args {
        Some(args) => clone_texts(args),
        None => Vec::new(),
    };
    assert(args.deep_view() =~= spec@.instruction.arguments());
    Begun::Execute { command: spec.instruction.command.clone(), args }
}

/// Takes an execution into the plan's status.
///
/// Where a retry ceiling is set and the attempts counted so far have reached
/// it, the execution is dropped: the cycle ends and the status stays as it
/// is. Otherwise the attempt is counted and the whole result is replaced by
/// that of the execution, and the new status is to be written; if the
/// command's streams cannot be decoded, the cycle fails instead and nothing
/// is to be written.
///
/// The attempt counter must have room for the increment. With a ceiling it
/// always has.
pub fn record(spec: &PlanSpec, status: &PlanStatus, execution: &Execution) -> (recorded: Recorded)
    requires
        spec@.instruction.retry_times is None ==> status.attempt < u32::MAX,
    ensures
        recorded@ == record_spec(spec@.instruction, status@, execution@),
{
    if let Some(times) = spec.instruction.retry_times {
        if times <= status.attempt {
            return Recorded::Finish(Ok(Action::AwaitChange));
        }
    }
    match execution_result(execution) {
        Ok(result) => Recorded::Persist(PlanStatus { attempt: status.attempt + 1, result }),
        Err(e) => Recorded::Finish(Err(Error::Utf8Error(e))),
    }
}

/// Ends a cycle whose status was handed to the store.
///
/// A failed write is the cycle's failure. After a successful write, the cycle
/// fails if the command could not be started, so that the scheduler tries
/// again; a command that ran is no failure, whatever its exit code.
pub fn conclude(execution: &Execution, written: Result<(), String>) -> (ending: Result<
    Action,
    Error,
>)
    ensures
        ending_view(ending) == conclude_spec(execution@, write_view(written)),
{
    match written {
        Err(reason) => Err(Error::Patch(reason)),
        Ok(_) => match execution {
            Execution::SpawnFailed(failure) => Err(
                Error::Exec(
                    SpawnFailure {
                        os_error: failure.os_error,
                        description: failure.description.clone(),
                    },
                ),
            ),
            Execution::Completed(_) => Ok(Action::AwaitChange),
        },
    }
}

/// Answers a failed cycle: whatever the error, the plan is to be reconciled
/// again after [`REQUEUE_DELAY_SECONDS`].
pub fn error_policy(error: &Error) -> (action: Action)
    ensures
        action == (Action::Requeue { seconds: REQUEUE_DELAY_SECONDS }),
{
    Action::Requeue { seconds: REQUEUE_DELAY_SECONDS }
}

} // verus!
