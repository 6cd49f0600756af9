use plan_controller::model::{Instruction, InstructionOutput, PlanSpec, PlanStatus};

#[test]
fn default_status_is_empty() {
    let status = PlanStatus::default();
    assert_eq!(status.attempt, 0);
    assert_eq!(status.result.exit_code, None);
    assert_eq!(status.result.output, None);
    assert_eq!(status.result.error, None);
}

#[test]
fn default_output_has_every_field_absent() {
    let output = InstructionOutput::default();
    assert_eq!(
        output,
        InstructionOutput {
            exit_code: None,
            output: None,
            error: None
        }
    );
}

#[test]
fn default_instruction_has_no_ceiling_and_no_arguments() {
    let instruction = Instruction::default();
    assert_eq!(instruction.retry_times, None);
    assert_eq!(instruction.command, "");
    assert_eq!(instruction.args, None);
}

#[test]
fn spec_holds_its_instruction() {
    let spec = PlanSpec {
        instruction: Instruction {
            retry_times: Some(3),
            command: String::from("echo"),
            args: Some(vec![String::from("hello")]),
        },
    };
    let copy = spec.clone();
    assert_eq!(copy, spec);
    assert_eq!(copy.instruction.retry_times, Some(3));
    assert_eq!(copy.instruction.command, "echo");
    assert_eq!(copy.instruction.args, Some(vec![String::from("hello")]));
}
