//! Structured errors for every boundary-crossing bridge operation.

use vstd::prelude::*;

verus! {

/// Why a bridge operation against the foreign runtime failed.
#[derive(Debug)]
pub enum CefError {
    /// A foreign pointer was null where ownership of one reference was
    /// expected.
    NullPtrReceived,
    /// No scripting context is active on the calling thread.
    NoCurrentV8Context,
    /// The thread runner was unavailable, or it rejected the posted task.
    TaskPostFailed,
    /// The foreign runtime could not materialize a value of the named kind.
    V8ValueCreationFailed(&'static str),
    /// A scripting function returned null without leaving an exception
    /// pending.
    V8FunctionExecutionFailed,
    /// The foreign UTF-16 string representation could not be built.
    StringConversionFailed,
    /// A scripting function returned null with an exception pending; the
    /// exception was extracted and then cleared.
    V8Exception { message: String, script: String, line: i32, column: i32 },
}

pub type CefResult<T> = Result<T, CefError>;

} // verus!
