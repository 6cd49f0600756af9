use plan_controller::execution::{decode_capture, Execution, ProcessOutput, SpawnFailure};
use plan_controller::model::{Instruction, InstructionOutput, PlanSpec, PlanStatus};
use plan_controller::reconciler::{
    begin, conclude, error_policy, record, Action, Begun, Error, Recorded, REQUEUE_DELAY_SECONDS,
};

fn plan(command: &str, args: Option<Vec<String>>, retry_times: Option<u32>) -> PlanSpec {
    PlanSpec {
        instruction: Instruction {
            retry_times,
            command: String::from(command),
            args,
        },
    }
}

fn exited(code: i32, stdout: &[u8], stderr: &[u8]) -> Execution {
    Execution::Completed(ProcessOutput {
        exit_code: Some(code),
        stdout: stdout.to_vec(),
        stderr: stderr.to_vec(),
    })
}

fn not_found() -> SpawnFailure {
    SpawnFailure {
        os_error: Some(2),
        description: String::from("No such file or directory (os error 2)"),
    }
}

fn status(attempt: u32, exit_code: Option<i32>) -> PlanStatus {
    PlanStatus {
        attempt,
        result: InstructionOutput {
            exit_code,
            output: None,
            error: None,
        },
    }
}

#[test]
fn fresh_plan_is_executed() {
    let spec = plan("echo", Some(vec![String::from("a"), String::from("b c")]), Some(3));
    assert_eq!(
        begin(&spec, &PlanStatus::default()),
        Begun::Execute {
            command: String::from("echo"),
            args: vec![String::from("a"), String::from("b c")],
        }
    );
}

#[test]
fn absent_arguments_mean_none() {
    let spec = plan("true", None, None);
    assert_eq!(
        begin(&spec, &PlanStatus::default()),
        Begun::Execute {
            command: String::from("true"),
            args: Vec::new(),
        }
    );
}

#[test]
fn succeeded_plan_is_left_alone() {
    let spec = plan("true", None, Some(3));
    assert_eq!(
        begin(&spec, &status(1, Some(0))),
        Begun::Finish(Action::AwaitChange)
    );
    // The attempt counter plays no part in it.
    assert_eq!(
        begin(&spec, &status(0, Some(0))),
        Begun::Finish(Action::AwaitChange)
    );
    assert_eq!(
        begin(&spec, &status(u32::MAX, Some(0))),
        Begun::Finish(Action::AwaitChange)
    );
}

#[test]
fn failed_plan_is_executed_again() {
    let spec = plan("false", None, None);
    assert_eq!(
        begin(&spec, &status(7, Some(1))),
        Begun::Execute {
            command: String::from("false"),
            args: Vec::new(),
        }
    );
    assert_eq!(
        begin(&spec, &status(7, Some(-1))),
        Begun::Execute {
            command: String::from("false"),
            args: Vec::new(),
        }
    );
}

#[test]
fn exhausted_plan_is_still_executed() {
    // The ceiling is looked at only once the command has run.
    let spec = plan("false", None, Some(1));
    assert_eq!(
        begin(&spec, &status(1, Some(1))),
        Begun::Execute {
            command: String::from("false"),
            args: Vec::new(),
        }
    );
}

#[test]
fn empty_command_is_not_rejected() {
    let spec = plan("", None, None);
    assert_eq!(
        begin(&spec, &PlanStatus::default()),
        Begun::Execute {
            command: String::new(),
            args: Vec::new(),
        }
    );
}

#[test]
fn execution_is_recorded_with_the_attempt_counted() {
    let spec = plan("sh", None, Some(3));
    assert_eq!(
        record(&spec, &PlanStatus::default(), &exited(1, b"out", b"err")),
        Recorded::Persist(PlanStatus {
            attempt: 1,
            result: InstructionOutput {
                exit_code: Some(1),
                output: Some(String::from("out")),
                error: Some(String::from("err")),
            },
        })
    );
}

#[test]
fn attempt_grows_by_exactly_one() {
    let spec = plan("false", None, None);
    for attempt in [0u32, 1, 41, u32::MAX - 1] {
        match record(&spec, &status(attempt, Some(1)), &exited(1, b"", b"")) {
            Recorded::Persist(next) => assert_eq!(next.attempt, attempt + 1),
            other => panic!("expected a status to persist, got {:?}", other),
        }
    }
}

#[test]
fn recording_replaces_the_whole_result() {
    let spec = plan("sh", None, None);
    let before = PlanStatus {
        attempt: 4,
        result: InstructionOutput {
            exit_code: Some(9),
            output: Some(String::from("old output")),
            error: Some(String::from("old error")),
        },
    };
    // A silent execution leaves nothing of the earlier streams.
    assert_eq!(
        record(&spec, &before, &exited(1, b"", b"")),
        Recorded::Persist(PlanStatus {
            attempt: 5,
            result: InstructionOutput {
                exit_code: Some(1),
                output: None,
                error: None,
            },
        })
    );
    // Nothing is appended either.
    assert_eq!(
        record(&spec, &before, &exited(2, b"new", b"")),
        Recorded::Persist(PlanStatus {
            attempt: 5,
            result: InstructionOutput {
                exit_code: Some(2),
                output: Some(String::from("new")),
                error: None,
            },
        })
    );
}

#[test]
fn spawn_failure_replaces_the_whole_result() {
    let spec = plan("/nonexistent/binary", None, None);
    let before = PlanStatus {
        attempt: 1,
        result: InstructionOutput {
            exit_code: Some(1),
            output: Some(String::from("old output")),
            error: Some(String::from("old error")),
        },
    };
    assert_eq!(
        record(&spec, &before, &Execution::SpawnFailed(not_found())),
        Recorded::Persist(PlanStatus {
            attempt: 2,
            result: InstructionOutput {
                exit_code: Some(2),
                output: None,
                error: Some(String::from("No such file or directory (os error 2)")),
            },
        })
    );
}

#[test]
fn ceiling_is_compared_with_the_attempts_before_the_increment() {
    let spec = plan("false", None, Some(2));
    let execution = exited(1, b"", b"");
    // Below the ceiling: recorded.
    assert_eq!(
        record(&spec, &status(0, None), &execution),
        Recorded::Persist(status(1, Some(1)))
    );
    assert_eq!(
        record(&spec, &status(1, Some(1)), &execution),
        Recorded::Persist(status(2, Some(1)))
    );
    // At the ceiling and beyond: dropped.
    assert_eq!(
        record(&spec, &status(2, Some(1)), &execution),
        Recorded::Finish(Ok(Action::AwaitChange))
    );
    assert_eq!(
        record(&spec, &status(3, Some(1)), &execution),
        Recorded::Finish(Ok(Action::AwaitChange))
    );
}

#[test]
fn ceiling_of_zero_records_nothing() {
    // With a ceiling of zero the very first execution is already dropped:
    // zero attempts have reached a ceiling of zero.
    let spec = plan("false", None, Some(0));
    assert_eq!(
        begin(&spec, &PlanStatus::default()),
        Begun::Execute {
            command: String::from("false"),
            args: Vec::new(),
        }
    );
    assert_eq!(
        record(&spec, &PlanStatus::default(), &exited(1, b"", b"")),
        Recorded::Finish(Ok(Action::AwaitChange))
    );
    // Not even a success is recorded.
    assert_eq!(
        record(&spec, &PlanStatus::default(), &exited(0, b"", b"")),
        Recorded::Finish(Ok(Action::AwaitChange))
    );
}

#[test]
fn ceiling_at_the_largest_counter_needs_no_room() {
    let spec = plan("false", None, Some(u32::MAX));
    assert_eq!(
        record(&spec, &status(u32::MAX - 1, Some(1)), &exited(1, b"", b"")),
        Recorded::Persist(status(u32::MAX, Some(1)))
    );
    assert_eq!(
        record(&spec, &status(u32::MAX, Some(1)), &exited(1, b"", b"")),
        Recorded::Finish(Ok(Action::AwaitChange))
    );
}

#[test]
fn exhausted_plan_drops_even_what_cannot_be_decoded() {
    let spec = plan("cat", None, Some(1));
    assert_eq!(
        record(&spec, &status(1, Some(1)), &exited(0, &[0xff], b"")),
        Recorded::Finish(Ok(Action::AwaitChange))
    );
}

#[test]
fn undecodable_output_fails_the_cycle() {
    let spec = plan("cat", None, None);
    match record(&spec, &PlanStatus::default(), &exited(0, &[0xff], b"")) {
        Recorded::Finish(Err(Error::Utf8Error(_))) => {}
        other => panic!("expected a decoding error, got {:?}", other),
    }
    match record(&spec, &PlanStatus::default(), &exited(0, b"ok", &[0xc3])) {
        Recorded::Finish(Err(Error::Utf8Error(_))) => {}
        other => panic!("expected a decoding error, got {:?}", other),
    }
}

#[test]
fn completed_command_concludes_in_waiting() {
    assert_eq!(
        conclude(&exited(0, b"", b""), Ok(())),
        Ok(Action::AwaitChange)
    );
}

#[test]
fn nonzero_exit_is_no_failure() {
    assert_eq!(
        conclude(&exited(1, b"", b"boom"), Ok(())),
        Ok(Action::AwaitChange)
    );
    assert_eq!(
        conclude(&exited(-7, b"", b""), Ok(())),
        Ok(Action::AwaitChange)
    );
}

#[test]
fn spawn_failure_fails_the_cycle_after_the_write() {
    assert_eq!(
        conclude(&Execution::SpawnFailed(not_found()), Ok(())),
        Err(Error::Exec(not_found()))
    );
}

#[test]
fn failed_write_fails_the_cycle() {
    assert_eq!(
        conclude(&exited(0, b"", b""), Err(String::from("conflict"))),
        Err(Error::Patch(String::from("conflict")))
    );
}

#[test]
fn failed_write_comes_before_spawn_failure() {
    assert_eq!(
        conclude(
            &Execution::SpawnFailed(not_found()),
            Err(String::from("store unavailable"))
        ),
        Err(Error::Patch(String::from("store unavailable")))
    );
}

#[test]
fn every_error_is_requeued_after_one_second() {
    assert_eq!(REQUEUE_DELAY_SECONDS, 1);
    let errors = vec![
        Error::Exec(not_found()),
        Error::Utf8Error(decode_capture(&vec![0xff]).unwrap_err()),
        Error::Patch(String::from("conflict")),
    ];
    for error in errors.iter() {
        assert_eq!(error_policy(error), Action::Requeue { seconds: 1 });
    }
}
