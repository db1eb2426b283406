//! The ways in which launching, stopping or probing can fail.

use vstd::prelude::*;
use crate::event::{ProcessHandle, StreamKind};

verus! {

/// A failure of the supervisor. The first eight kinds are returned to the
/// caller; `ProcessNotFound` and `WaitFailed` only ever appear as notes for
/// the log, beside a result that is not an error.
#[derive(Clone, Debug, PartialEq, Eq)]
pub enum ProcessError {
    /// Nothing exists at the path of the executable.
    ExecutableNotFound { path: String },
    /// The path of the executable names something other than a regular file.
    NotARegularFile { path: String },
    /// The operating system could not create the process.
    SpawnFailed { reason: String },
    /// A started process came without one of its output pipes.
    PipeCaptureFailed { stream: StreamKind },
    /// The registry has given out every handle it had.
    HandlesExhausted,
    /// The tool ran and reported failure; `diagnostics` is what it wrote to
    /// its diagnostic stream.
    ProcessExitedNonZero { diagnostics: String },
    /// The tool's report of itself has an empty first line.
    EmptyVersionOutput,
    /// The operating system refused to terminate the process.
    KillFailed { reason: String },
    /// No process is tracked under the handle.
    ProcessNotFound { handle: ProcessHandle },
    /// The terminated process could not be reaped.
    WaitFailed { reason: String },
}

/// What a [`ProcessError`] holds, with its texts as sequences of characters.
pub enum ProcessErrorView {
    ExecutableNotFound { path: Seq<char> },
    NotARegularFile { path: Seq<char> },
    SpawnFailed { reason: Seq<char> },
    PipeCaptureFailed { stream: StreamKind },
    HandlesExhausted,
    ProcessExitedNonZero { diagnostics: Seq<char> },
    EmptyVersionOutput,
    KillFailed { reason: Seq<char> },
    ProcessNotFound { handle: ProcessHandle },
    WaitFailed { reason: Seq<char> },
}

impl View for ProcessError {
    type V = ProcessErrorView;

    open spec fn view(&self) -> ProcessErrorView {
        match *self {
            ProcessError::ExecutableNotFound { path } => ProcessErrorView::ExecutableNotFound {
                path: path@,
            },
            ProcessError::NotARegularFile { path } => ProcessErrorView::NotARegularFile {
                path: path@,
            },
            ProcessError::SpawnFailed { reason } => ProcessErrorView::SpawnFailed {
                reason: reason@,
            },
            ProcessError::PipeCaptureFailed { stream } => ProcessErrorView::PipeCaptureFailed {
                stream,
            },
            ProcessError::HandlesExhausted => ProcessErrorView::HandlesExhausted,
            ProcessError::ProcessExitedNonZero {
                diagnostics,
            } => ProcessErrorView::ProcessExitedNonZero { diagnostics: diagnostics@ },
            ProcessError::EmptyVersionOutput => ProcessErrorView::EmptyVersionOutput,
            ProcessError::KillFailed { reason } => ProcessErrorView::KillFailed { reason: reason@ },
            ProcessError::ProcessNotFound { handle } => ProcessErrorView::ProcessNotFound {
                handle,
            },
            ProcessError::WaitFailed { reason } => ProcessErrorView::WaitFailed { reason: reason@ },
        }
    }
}

/// The sentence that describes a failure to a person.
pub open spec fn message_text(error: ProcessErrorView) -> Seq<char> {
    match error {
        ProcessErrorView::ExecutableNotFound { path } => "FFmpeg file not found at path: "@ + path,
        ProcessErrorView::NotARegularFile { path } => "Path is not a file: "@ + path,
        ProcessErrorView::SpawnFailed { reason } => "Failed to execute FFmpeg: "@ + reason,
        ProcessErrorView::PipeCaptureFailed { stream } => match stream {
            StreamKind::Stdout => "Failed to capture stdout"@,
            StreamKind::Stderr => "Failed to capture stderr"@,
        },
        ProcessErrorView::HandlesExhausted => "No handle is left for another FFmpeg process"@,
        ProcessErrorView::ProcessExitedNonZero { diagnostics } => "FFmpeg execution failed: "@
            + diagnostics,
        ProcessErrorView::EmptyVersionOutput => "Failed to parse FFmpeg version from output"@,
        ProcessErrorView::KillFailed { reason } => "Failed to kill FFmpeg process: "@ + reason,
        ProcessErrorView::ProcessNotFound { .. } => "No FFmpeg process is tracked under this handle"@,
        ProcessErrorView::WaitFailed { reason } => "Failed to wait for FFmpeg process: "@ + reason,
    }
}

impl ProcessError {
    /// The sentence that describes the failure to a person.
    pub fn message(&self) -> (text: String)
        ensures
            text@ == message_text(self@),
    {
        match self {
            ProcessError::ExecutableNotFound { path } => String::from_str(
                "FFmpeg file not found at path: ",
            ).concat(path.as_str()),
            ProcessError::NotARegularFile { path } => String::from_str(
                "Path is not a file: ",
            ).concat(path.as_str()),
            ProcessError::SpawnFailed { reason } => String::from_str(
                "Failed to execute FFmpeg: ",
            ).concat(reason.as_str()),
            ProcessError::PipeCaptureFailed { stream } => match stream {
                StreamKind::Stdout => String::from_str("Failed to capture stdout"),
                StreamKind::Stderr => String::from_str("Failed to capture stderr"),
            },
            ProcessError::HandlesExhausted => String::from_str(
                "No handle is left for another FFmpeg process",
            ),
            ProcessError::ProcessExitedNonZero { diagnostics } => String::from_str(
                "FFmpeg execution failed: ",
            ).concat(diagnostics.as_str()),
            ProcessError::EmptyVersionOutput => String::from_str(
                "Failed to parse FFmpeg version from output",
            ),
            ProcessError::KillFailed { reason } => String::from_str(
                "Failed to kill FFmpeg process: ",
            ).concat(reason.as_str()),
            ProcessError::ProcessNotFound { .. } => String::from_str(
                "No FFmpeg process is tracked under this handle",
            ),
            ProcessError::WaitFailed { reason } => String::from_str(
                "Failed to wait for FFmpeg process: ",
            ).concat(reason.as_str()),
        }
    }
}

} // verus!
