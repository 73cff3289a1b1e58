//! The deterministic record of one completed process execution.

use vstd::prelude::*;

verus! {

/// What one external program run produced: exit status, captured
/// output text and wall-clock duration. Either fully populated by the
/// executor or never built at all; an execution-layer failure is a
/// `ToolError::ExecutionFailure` instead.
#[derive(Debug, Clone)]
pub struct ExecutionOutcome {
    /// Whether the process exited with status code zero.
    pub success: bool,
    /// The numeric exit code, absent when the process was terminated
    /// by a signal before producing one.
    pub exit_code: Option<i32>,
    /// Captured standard output; `None` when the stream was empty.
    pub stdout: Option<String>,
    /// Captured standard error; `None` when the stream was empty.
    pub stderr: Option<String>,
    /// Wall-clock milliseconds from just before spawn to full exit.
    pub duration_ms: u64,
}

/// The optional-text form of a captured stream: an empty capture is
/// "no output" rather than an empty string.
pub open spec fn spec_stream(text: Seq<char>) -> Option<Seq<char>> {
    if text.len() == 0 {
        None
    } else {
        Some(text)
    }
}

impl ExecutionOutcome {
    /// Builds the outcome of a fully exited process. Success is exactly
    /// "the exit code was observed and was zero"; captured streams are
    /// kept verbatim, with an empty capture recorded as no output.
    pub fn from_exit(exit_code: Option<i32>, stdout: String, stderr: String, duration_ms: u64) -> (r:
        ExecutionOutcome)
        ensures
            r.success == (exit_code == Some(0i32)),
            r.exit_code == exit_code,
            r.stdout.deep_view() == spec_stream(stdout@),
            r.stderr.deep_view() == spec_stream(stderr@),
            r.duration_ms == duration_ms,
    {
        let success = match exit_code {
            Some(c) => c == 0,
            None => false,
        };
        let out = if stdout.as_str().is_empty() {
            None
        } else {
            Some(stdout)
        };
        let err = if stderr.as_str().is_empty() {
            None
        } else {
            Some(stderr)
        };
        ExecutionOutcome { success, exit_code, stdout: out, stderr: err, duration_ms }
    }
}

} // verus!
