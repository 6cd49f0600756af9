//! The resource model: what a plan asks for and what has been observed of it.
//!
//! The types are plain data. Each has a view, a mathematical value over which
//! the contracts of the reconciler are stated.

use vstd::prelude::*;

verus! {

/// Desired state of a plan.
#[derive(Clone, Debug, PartialEq, Eq)]
pub struct PlanSpec {
    /// The command to carry out on behalf of the plan.
    pub instruction: Instruction,
}

/// A command with its arguments and its retry budget.
#[derive(Clone, Debug, PartialEq, Eq)]
pub struct Instruction {
    /// Retry ceiling for the command; absent means that retries are unlimited.
    pub retry_times: Option<u32>,
    /// Command entrypoint.
    pub command: String,
    /// Arguments to the entrypoint; absent means none.
    pub args: Option<Vec<String>>,
}

/// Observed state of a plan, written by the reconciler alone.
#[derive(Clone, Debug, PartialEq, Eq)]
pub struct PlanStatus {
    /// Number of executions recorded so far.
    pub attempt: u32,
    /// Outcome of the most recent recorded execution.
    pub result: InstructionOutput,
}

/// The outcome of the most recent execution of a plan's command.
#[derive(Clone, Debug, PartialEq, Eq)]
pub struct InstructionOutput {
    /// Exit code of the process, or the OS error code when it could not be
    /// started. Absent while the command has not run.
    pub exit_code: Option<i32>,
    /// Captured standard output; absent when the process printed nothing.
    pub output: Option<String>,
    /// Captured standard error, or the description of a spawn failure.
    pub error: Option<String>,
}

/// Mathematical model of a [`PlanSpec`].
pub struct PlanSpecView {
    pub instruction: InstructionView,
}

/// Mathematical model of an [`Instruction`].
pub struct InstructionView {
    pub retry_times: Option<u32>,
    pub command: Seq<char>,
    pub args: Option<Seq<Seq<char>>>,
}

/// Mathematical model of a [`PlanStatus`].
pub struct PlanStatusView {
    pub attempt: nat,
    pub result: InstructionOutputView,
}

/// Mathematical model of an [`InstructionOutput`].
pub struct InstructionOutputView {
    pub exit_code: Option<i32>,
    pub output: Option<Seq<char>>,
    pub error: Option<Seq<char>>,
}

/// The text held by an optional string.
pub open spec fn text_view(text: Option<String>) -> Option<Seq<char>> {
    match text {
        Some(s) => Some(s@),
        None => None,
    }
}

/// The texts held by an optional list of strings.
pub open spec fn texts_view(texts: Option<Vec<String>>) -> Option<Seq<Seq<char>>> {
    match texts {
        Some(v) => Some(v.deep_view()),
        None => None,
    }
}

impl InstructionView {
    /// The arguments handed to the command: an absent list stands for none.
    pub open spec fn arguments(self) -> Seq<Seq<char>> {
        match self.args {
            Some(args) => args,
            None => Seq::empty(),
        }
    }
}

impl InstructionOutputView {
    /// The output of a command that has not run: every field absent.
    pub open spec fn empty() -> InstructionOutputView {
        InstructionOutputView { exit_code: None, output: None, error: None }
    }
}

impl PlanStatusView {
    /// The status of a plan that was never reconciled.
    pub open spec fn empty() -> PlanStatusView {
        PlanStatusView { attempt: 0, result: InstructionOutputView::empty() }
    }
}

impl View for PlanSpec {
    type V = PlanSpecView;

    open spec fn view(&self) -> PlanSpecView {
        PlanSpecView { instruction: self.instruction@ }
    }
}

impl View for Instruction {
    type V = InstructionView;

    open spec fn view(&self) -> InstructionView {
        InstructionView {
            retry_times: self.retry_times,
            command: self.command@,
            args: texts_view(self.args),
        }
    }
}

impl View for PlanStatus {
    type V = PlanStatusView;

    open spec fn view(&self) -> PlanStatusView {
        PlanStatusView { attempt: self.attempt as nat, result: self.result@ }
    }
}

impl View for InstructionOutput {
    type V = InstructionOutputView;

    open spec fn view(&self) -> InstructionOutputView {
        InstructionOutputView {
            exit_code: self.exit_code,
            output: text_view(self.output),
            error: text_view(self.error),
        }
    }
}

impl Default for Instruction {
    /// An instruction with an empty command, no arguments and no retry
    /// ceiling.
    fn default() -> (instruction: Instruction)
        ensures
            instruction@ == (InstructionView {
                retry_times: None,
                command: Seq::empty(),
                args: None,
            }),
    {
        Instruction { retry_times: None, command: String::new(), args: None }
    }
}

impl Default for InstructionOutput {
    /// The output of a command that has not run.
    fn default() -> (output: InstructionOutput)
        ensures
            output@ == InstructionOutputView::empty(),
    {
        InstructionOutput { exit_code: None, output: None, error: None }
    }
}

impl Default for PlanStatus {
    /// The status of a plan that was never reconciled: no attempt, no result.
    fn default() -> (status: PlanStatus)
        ensures
            status@ == PlanStatusView::empty(),
    {
        PlanStatus {
            attempt: 0,
            result: InstructionOutput { exit_code: None, output: None, error: None },
        }
    }
}

} // verus!
