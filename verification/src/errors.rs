//! The error taxonomy of the framework.
//!
//! `InvalidParameter` and `UnknownTool` are detected before any process
//! spawns; `ExecutionFailure` means the external program could not be
//! spawned or its exit status could not be observed. A program that ran
//! to completion with a nonzero status is not an error of this kind: it
//! is a normal outcome carried in a `Response` with the error flag set.

use vstd::prelude::*;

verus! {

/// An error raised by the framework before or instead of a process
/// outcome.
#[derive(Debug, Clone)]
pub enum ToolError {
    /// A field's JSON shape or enumerated value is unacceptable.
    InvalidParameter(String),
    /// Dispatch was asked for a name with no matching registration.
    UnknownTool(String),
    /// The external program could not be spawned or observed.
    ExecutionFailure(String),
}

/// Mathematical image of a `ToolError`.
pub enum ToolErrorV {
    InvalidParameter(Seq<char>),
    UnknownTool(Seq<char>),
    ExecutionFailure(Seq<char>),
}

impl View for ToolError {
    type V = ToolErrorV;

    open spec fn view(&self) -> ToolErrorV {
        match self {
            ToolError::InvalidParameter(m) => ToolErrorV::InvalidParameter(m@),
            ToolError::UnknownTool(m) => ToolErrorV::UnknownTool(m@),
            ToolError::ExecutionFailure(m) => ToolErrorV::ExecutionFailure(m@),
        }
    }
}

impl DeepView for ToolError {
    type V = ToolErrorV;

    open spec fn deep_view(&self) -> ToolErrorV {
        self.view()
    }
}

/// The message text of a `ToolErrorV`.
pub open spec fn spec_error_message(e: ToolErrorV) -> Seq<char> {
    match e {
        ToolErrorV::InvalidParameter(m) => m,
        ToolErrorV::UnknownTool(m) => m,
        ToolErrorV::ExecutionFailure(m) => m,
    }
}

impl ToolError {
    /// The human-readable message carried by this error.
    pub fn message(&self) -> (r: &String)
        ensures
            r@ == spec_error_message(self@),
    {
        match self {
            ToolError::InvalidParameter(m) => m,
            ToolError::UnknownTool(m) => m,
            ToolError::ExecutionFailure(m) => m,
        }
    }
}

/// Maps a fallible result into the mathematical domain, value and error
/// alike.
pub open spec fn res_v<T: DeepView>(r: Result<T, ToolError>) -> Result<T::V, ToolErrorV> {
    match r {
        Ok(t) => Ok(t.deep_view()),
        Err(e) => Err(e@),
    }
}

/// The message of a type mismatch on a parameter.
pub open spec fn spec_type_err_msg(field: Seq<char>, expected: Seq<char>, got: Seq<char>) -> Seq<
    char,
> {
    "invalid type for parameter `"@ + field + "`: expected "@ + expected + ", got "@ + got
}

/// The message of a missing required parameter.
pub open spec fn spec_missing_msg(field: Seq<char>) -> Seq<char> {
    "missing required parameter `"@ + field + "`"@
}

/// The `InvalidParameter` error of a type mismatch on a parameter.
pub open spec fn spec_type_err(field: Seq<char>, expected: Seq<char>, got: Seq<char>) -> ToolErrorV {
    ToolErrorV::InvalidParameter(spec_type_err_msg(field, expected, got))
}

/// The `InvalidParameter` error of a missing required parameter.
pub open spec fn spec_missing_err(field: Seq<char>) -> ToolErrorV {
    ToolErrorV::InvalidParameter(spec_missing_msg(field))
}

/// Builds the type-mismatch error for `field`, naming the expected and
/// the actual JSON type.
pub fn type_err(field: &str, expected: &str, got: &str) -> (r: ToolError)
    ensures
        r@ == spec_type_err(field@, expected@, got@),
        r is InvalidParameter,
{
    let mut m = String::new();
    m.append("invalid type for parameter `");
    m.append(field);
    m.append("`: expected ");
    m.append(expected);
    m.append(", got ");
    m.append(got);
    ToolError::InvalidParameter(m)
}

/// Builds the missing-parameter error for `field`.
pub fn missing_err(field: &str) -> (r: ToolError)
    ensures
        r@ == spec_missing_err(field@),
        r is InvalidParameter,
{
    let mut m = String::new();
    m.append("missing required parameter `");
    m.append(field);
    m.append("`");
    ToolError::InvalidParameter(m)
}

} // verus!
