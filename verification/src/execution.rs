//! What running a command yields, and how that is turned into the result
//! that a plan's status records.
//!
//! The process itself is run by the caller; this module starts from what
//! came back: an exit code with the captured streams, or the failure to
//! start the process at all.

use crate::model::{text_view, InstructionOutput, InstructionOutputView};
use vstd::prelude::*;
use vstd::string::StringSliceAdditionalSpecFns;
use vstd::utf8::{decode_utf8, encode_utf8_decode_utf8, valid_utf8};

verus! {

/// What a process left behind when it ran to its end.
#[derive(Clone, Debug, PartialEq, Eq)]
pub struct ProcessOutput {
    /// Exit code; absent when the process was ended by a signal.
    pub exit_code: Option<i32>,
    /// Bytes written to standard output.
    pub stdout: Vec<u8>,
    /// Bytes written to standard error.
    pub stderr: Vec<u8>,
}

/// Why a process could not be started.
#[derive(Clone, Debug, PartialEq, Eq)]
pub struct SpawnFailure {
    /// Error code of the operating system, where it gave one.
    pub os_error: Option<i32>,
    /// Description of the failure.
    pub description: String,
}

/// The outcome of one attempt to run a command.
#[derive(Clone, Debug, PartialEq, Eq)]
pub enum Execution {
    /// The process was started and ran to its end, with whatever exit code.
    Completed(ProcessOutput),
    /// The process could not be started.
    SpawnFailed(SpawnFailure),
}

/// Mathematical model of a [`ProcessOutput`].
pub struct ProcessOutputView {
    pub exit_code: Option<i32>,
    pub stdout: Seq<u8>,
    pub stderr: Seq<u8>,
}

/// Mathematical model of a [`SpawnFailure`].
pub struct SpawnFailureView {
    pub os_error: Option<i32>,
    pub description: Seq<char>,
}

/// Mathematical model of an [`Execution`].
pub enum ExecutionView {
    Completed(ProcessOutputView),
    SpawnFailed(SpawnFailureView),
}

impl View for ProcessOutput {
    type V = ProcessOutputView;

    open spec fn view(&self) -> ProcessOutputView {
        ProcessOutputView { exit_code: self.exit_code, stdout: self.stdout@, stderr: self.stderr@ }
    }
}

impl View for SpawnFailure {
    type V = SpawnFailureView;

    open spec fn view(&self) -> SpawnFailureView {
        SpawnFailureView { os_error: self.os_error, description: self.description@ }
    }
}

impl View for Execution {
    type V = ExecutionView;

    open spec fn view(&self) -> ExecutionView {
        match self {
            Execution::Completed(output) => ExecutionView::Completed(output@),
            Execution::SpawnFailed(failure) => ExecutionView::SpawnFailed(failure@),
        }
    }
}

/// What a captured stream is recorded as: nothing when the stream is empty,
/// else the text that its bytes encode.
pub open spec fn captured_text(bytes: Seq<u8>) -> Option<Seq<char>> {
    if bytes.len() == 0 {
        None
    } else {
        Some(decode_utf8(bytes))
    }
}

impl ExecutionView {
    /// Whether the captured streams can be recorded as text. A spawn failure
    /// captured nothing, so there is nothing to decode.
    pub open spec fn decodable(self) -> bool {
        match self {
            ExecutionView::Completed(output) => valid_utf8(output.stdout) && valid_utf8(
                output.stderr,
            ),
            ExecutionView::SpawnFailed(_) => true,
        }
    }

    /// The result that a status records for this execution. Every field is
    /// set from the execution: a completed process gives its exit code and
    /// its non-empty streams; a spawn failure gives the OS error code and its
    /// description in place of standard error.
    pub open spec fn result(self) -> InstructionOutputView {
        match self {
            ExecutionView::Completed(output) => InstructionOutputView {
                exit_code: output.exit_code,
                output: captured_text(output.stdout),
                error: captured_text(output.stderr),
            },
            ExecutionView::SpawnFailed(failure) => InstructionOutputView {
                exit_code: failure.os_error,
                output: None,
                error: Some(failure.description),
            },
        }
    }
}

/// Makes `core::str::Utf8Error` known as an opaque type: the error with which
/// `core::str::from_utf8` refuses a byte slice. Nothing is claimed of what it
/// holds.
#[verifier::external_type_specification]
#[verifier::external_body]
pub struct ExUtf8Error(core::str::Utf8Error);

/// Trusted contract of `core::str::from_utf8`: it succeeds exactly on the
/// byte slices that are valid UTF-8, and the string slice it then returns is
/// made of the very bytes it was given.
pub assume_specification[ core::str::from_utf8 ](bytes: &[u8]) -> (text: Result<
    &str,
    core::str::Utf8Error,
>)
    ensures
        text is Ok <==> valid_utf8(bytes@),
        text matches Ok(s) ==> s.spec_bytes() == bytes@,
;

/// Decodes one captured stream.
///
/// An empty stream is recorded as absent, never as an empty text. A stream
/// that is not valid UTF-8 is refused with the decoder's error.
pub fn decode_capture(bytes: &Vec<u8>) -> (text: Result<Option<String>, core::str::Utf8Error>)
    ensures
        text is Ok <==> valid_utf8(bytes@),
        text matches Ok(t) ==> text_view(t) == captured_text(bytes@),
{
    if bytes.is_empty() {
        return Ok(None);
    }
    match core::str::from_utf8(bytes.as_slice()) {
        Ok(s) => {
            proof {
                encode_utf8_decode_utf8(s@);
            }
            Ok(Some(s.to_owned()))
        },
        Err(e) => Err(e),
    }
}

/// Builds the result that a status records for an execution.
///
/// Fails exactly when a completed process wrote bytes that are not valid
/// UTF-8 to one of its streams.
pub fn execution_result(execution: &Execution) -> (result: Result<
    InstructionOutput,
    core::str::Utf8Error,
>)
    ensures
        result is Ok <==> execution@.decodable(),
        result matches Ok(r) ==> r@ == execution@.result(),
{
    match execution {
        Execution::Completed(output) => {
            let stdout = match decode_capture(&output.stdout) {
                Ok(text) => text,
                Err(e) => {
                    return Err(e);
                },
            };
            let stderr = match decode_capture(&output.stderr) {
                Ok(text) => text,
                Err(e) => {
                    return Err(e);
                },
            };
            Ok(InstructionOutput { exit_code: output.exit_code, output: stdout, error: stderr })
        },
        Execution::SpawnFailed(failure) => Ok(
            InstructionOutput {
                exit_code: failure.os_error,
                output: None,
                error: Some(failure.description.clone()),
            },
        ),
    }
}

} // verus!
