//! The life of a plan over many cycles, and what holds of it.
//!
//! [`reconcile`] puts the three decisions of the reconciler together into one
//! whole cycle, as a driver performs it: open the cycle, run the command if
//! asked to, record the execution, write the status if asked to, conclude.
//! [`run`] repeats that over a sequence of triggers. The proof functions of
//! this module state what every such run obeys.

use crate::execution::ExecutionView;
use crate::model::{InstructionView, PlanStatusView};
use crate::reconciler::{
    begin_spec, conclude_spec, exhausted, record_spec, Action, BegunView, ErrorView, RecordedView,
};
use vstd::prelude::*;
use vstd::utf8::{decode_utf8, valid_utf8};

verus! {

/// What the surroundings contribute to one cycle: what running the command
/// gives, should it be run, and what writing the status gives, should it be
/// written.
pub struct Trigger {
    pub execution: ExecutionView,
    pub written: Result<(), Seq<char>>,
}

/// One whole cycle, seen from outside.
pub struct Cycle {
    /// The status in the store when the cycle is over.
    pub status: PlanStatusView,
    /// What the cycle reports to the scheduler.
    pub ending: Result<Action, ErrorView>,
    /// Whether the command was run.
    pub executed: bool,
    /// Whether an execution was recorded: counted, and written to the store.
    pub recorded: bool,
}

/// One cycle on a plan with the given instruction and stored status.
pub open spec fn reconcile(
    instruction: InstructionView,
    status: PlanStatusView,
    trigger: Trigger,
) -> Cycle {
    match begin_spec(instruction, status) {
        BegunView::Finish(action) => Cycle {
            status,
            ending: Ok(action),
            executed: false,
            recorded: false,
        },
        BegunView::Execute { .. } => match record_spec(instruction, status, trigger.execution) {
            RecordedView::Finish(ending) => Cycle {
                status,
                ending,
                executed: true,
                recorded: false,
            },
            RecordedView::Persist(next) => Cycle {
                status: if trigger.written is Ok {
                    next
                } else {
                    status
                },
                ending: conclude_spec(trigger.execution, trigger.written),
                executed: true,
                recorded: trigger.written is Ok,
            },
        },
    }
}

/// The stored status after one cycle for each trigger, in order.
pub open spec fn run(
    instruction: InstructionView,
    status: PlanStatusView,
    triggers: Seq<Trigger>,
) -> PlanStatusView
    decreases triggers.len(),
{
    if triggers.len() == 0 {
        status
    } else {
        run(instruction, reconcile(instruction, status, triggers[0]).status, triggers.drop_first())
    }
}

/// The number of cycles of a run in which the command was run.
pub open spec fn executions(
    instruction: InstructionView,
    status: PlanStatusView,
    triggers: Seq<Trigger>,
) -> nat
    decreases triggers.len(),
{
    if triggers.len() == 0 {
        0
    } else {
        let cycle = reconcile(instruction, status, triggers[0]);
        let rest = executions(instruction, cycle.status, triggers.drop_first());
        if cycle.executed {
            rest + 1
        } else {
            rest
        }
    }
}

/// The number of cycles of a run in which an execution was recorded.
pub open spec fn recordings(
    instruction: InstructionView,
    status: PlanStatusView,
    triggers: Seq<Trigger>,
) -> nat
    decreases triggers.len(),
{
    if triggers.len() == 0 {
        0
    } else {
        let cycle = reconcile(instruction, status, triggers[0]);
        let rest = recordings(instruction, cycle.status, triggers.drop_first());
        if cycle.recorded {
            rest + 1
        } else {
            rest
        }
    }
}

/// The five ways in which a cycle can go, by what it finds.
///
/// - The plan has succeeded: nothing is run or written, and the cycle asks to
///   wait for a change.
/// - The retry ceiling is reached: the command is run, what it gives is
///   dropped, and the cycle asks to wait for a change.
/// - The command's streams cannot be decoded: nothing is written, and the
///   cycle fails.
/// - The write of the new status fails: the store keeps the old status, and
///   the cycle fails.
/// - Otherwise the execution is recorded. The cycle then fails if the
///   command could not be started, and asks to wait for a change if it ran,
///   whatever its exit code.
pub proof fn cycle_cases(instruction: InstructionView, status: PlanStatusView, trigger: Trigger)
    ensures
        reconcile(instruction, status, trigger) == if status.succeeded() {
            Cycle { status, ending: Ok(Action::AwaitChange), executed: false, recorded: false }
        } else if exhausted(instruction, status) {
            Cycle { status, ending: Ok(Action::AwaitChange), executed: true, recorded: false }
        } else if !trigger.execution.decodable() {
            Cycle { status, ending: Err(ErrorView::Utf8Error), executed: true, recorded: false }
        } else {
            match trigger.written {
                Err(reason) => Cycle {
                    status,
                    ending: Err(ErrorView::Patch(reason)),
                    executed: true,
                    recorded: false,
                },
                Ok(_) => Cycle {
                    status: status.recording(trigger.execution),
                    ending: match trigger.execution {
                        ExecutionView::SpawnFailed(failure) => Err(ErrorView::Exec(failure)),
                        ExecutionView::Completed(_) => Ok(Action::AwaitChange),
                    },
                    executed: true,
                    recorded: true,
                },
            }
        },
{
}

/// Success is terminal. Once the recorded exit code is zero, a cycle runs
/// nothing, writes nothing and asks to wait for a change, and so does every
/// later cycle: the status stays as it is for good.
pub proof fn success_is_terminal(
    instruction: InstructionView,
    status: PlanStatusView,
    triggers: Seq<Trigger>,
)
    requires
        status.succeeded(),
    ensures
        forall|trigger: Trigger|
            #![trigger reconcile(instruction, status, trigger)]
            reconcile(instruction, status, trigger) == (Cycle {
                status,
                ending: Ok(Action::AwaitChange),
                executed: false,
                recorded: false,
            }),
        run(instruction, status, triggers) == status,
        executions(instruction, status, triggers) == 0,
        recordings(instruction, status, triggers) == 0,
    decreases triggers.len(),
{
    if triggers.len() > 0 {
        success_is_terminal(instruction, status, triggers.drop_first());
    }
}

/// A cycle moves the attempt counter by one exactly when it records an
/// execution, and leaves it alone otherwise. Over a run the counter therefore
/// never decreases, and grows by the number of executions recorded.
pub proof fn attempt_counts_recordings(
    instruction: InstructionView,
    status: PlanStatusView,
    triggers: Seq<Trigger>,
)
    ensures
        forall|trigger: Trigger|
            #![trigger reconcile(instruction, status, trigger)]
            ({
                let cycle = reconcile(instruction, status, trigger);
                if cycle.recorded {
                    cycle.status.attempt == status.attempt + 1
                } else {
                    cycle.status.attempt == status.attempt
                }
            }),
        run(instruction, status, triggers).attempt == status.attempt + recordings(
            instruction,
            status,
            triggers,
        ),
        run(instruction, status, triggers).attempt >= status.attempt,
    decreases triggers.len(),
{
    if triggers.len() > 0 {
        let next = reconcile(instruction, status, triggers[0]).status;
        attempt_counts_recordings(instruction, next, triggers.drop_first());
    }
}

/// The retry ceiling bounds what is recorded. With a ceiling of `times`, no
/// run takes the attempt counter past the larger of `times` and where it
/// stood; from a counter of zero, at most `times` executions are recorded.
pub proof fn ceiling_bounds_recordings(
    instruction: InstructionView,
    status: PlanStatusView,
    triggers: Seq<Trigger>,
    times: u32,
)
    requires
        instruction.retry_times == Some(times),
    ensures
        status.attempt <= times ==> run(instruction, status, triggers).attempt <= times,
        status.attempt >= times ==> run(instruction, status, triggers).attempt == status.attempt,
        status.attempt <= times + 1 ==> run(instruction, status, triggers).attempt <= times + 1,
        status.attempt <= times ==> status.attempt + recordings(instruction, status, triggers)
            <= times,
        recordings(instruction, status, triggers) <= times,
    decreases triggers.len(),
{
    if triggers.len() > 0 {
        let next = reconcile(instruction, status, triggers[0]).status;
        ceiling_bounds_recordings(instruction, next, triggers.drop_first(), times);
    }
}

/// An exhausted plan is never recorded again. Once the attempts counted have
/// reached the ceiling, no cycle writes a status, whatever the command does:
/// the status stays as it is for good.
pub proof fn exhausted_plan_is_settled(
    instruction: InstructionView,
    status: PlanStatusView,
    triggers: Seq<Trigger>,
)
    requires
        exhausted(instruction, status),
    ensures
        forall|trigger: Trigger|
            #![trigger reconcile(instruction, status, trigger)]
            ({
                let cycle = reconcile(instruction, status, trigger);
                &&& cycle.status == status
                &&& cycle.ending == Ok::<Action, ErrorView>(Action::AwaitChange)
                &&& !cycle.recorded
            }),
        run(instruction, status, triggers) == status,
        recordings(instruction, status, triggers) == 0,
    decreases triggers.len(),
{
    if triggers.len() > 0 {
        exhausted_plan_is_settled(instruction, status, triggers.drop_first());
    }
}

/// The ceiling is looked at only after the command has run. An exhausted
/// plan that has not succeeded still runs its command in every cycle; what
/// the command gives is dropped.
pub proof fn exhausted_plan_still_executes(
    instruction: InstructionView,
    status: PlanStatusView,
    triggers: Seq<Trigger>,
)
    requires
        exhausted(instruction, status),
        !status.succeeded(),
    ensures
        executions(instruction, status, triggers) == triggers.len(),
    decreases triggers.len(),
{
    if triggers.len() > 0 {
        exhausted_plan_is_settled(instruction, status, triggers);
        exhausted_plan_still_executes(instruction, status, triggers.drop_first());
    }
}

/// A recorded execution replaces the whole result. The result of the new
/// status is that of the execution alone: nothing of the earlier result, and
/// nothing of the earlier status but its attempt counter, is left in it.
pub proof fn recording_replaces_result(
    instruction: InstructionView,
    status: PlanStatusView,
    other: PlanStatusView,
    trigger: Trigger,
)
    ensures
        ({
            let cycle = reconcile(instruction, status, trigger);
            cycle.recorded ==> cycle.status.result == trigger.execution.result()
        }),
        status.recording(trigger.execution).result == other.recording(trigger.execution).result,
{
}

/// Empty streams are recorded as absent. Of a process that ran to its end,
/// standard output is recorded exactly when it is not empty, and what is
/// recorded of it is never an empty text; likewise standard error.
pub proof fn empty_streams_are_absent(execution: ExecutionView)
    requires
        execution is Completed,
        execution.decodable(),
    ensures
        execution.result().output is None <==> execution->Completed_0.stdout.len() == 0,
        execution.result().error is None <==> execution->Completed_0.stderr.len() == 0,
        execution.result().output matches Some(text) ==> text.len() > 0,
        execution.result().error matches Some(text) ==> text.len() > 0,
{
    let output = execution->Completed_0;
    decoded_text_is_not_empty(output.stdout);
    decoded_text_is_not_empty(output.stderr);
}

/// Bytes that are valid UTF-8 and not empty decode to a text that is not
/// empty.
proof fn decoded_text_is_not_empty(bytes: Seq<u8>)
    requires
        valid_utf8(bytes),
    ensures
        bytes.len() > 0 ==> decode_utf8(bytes).len() > 0,
{
}

} // verus!
