use vstd::prelude::*;

verus! {

/// Classified failures of the library's operations.
///
/// Every fallible operation of the library reports one of these variants;
/// no step is silently retried, and a failure at any step aborts the whole
/// operation.
#[derive(Debug, Clone, PartialEq, Eq)]
pub enum AppError {
    /// A required setting is missing (for example, no editor command could
    /// be resolved).
    Config { details: String },
    /// A recognized but unavailable operation was requested.
    NotImplemented(String),
    /// An external helper process (branch query, editor, converter) could
    /// not be started or failed.
    ExternalTool { command: String, details: String },
    /// The editor process exited with a non-zero status.
    EditorFailed { status: i32 },
    /// The markup converter exited non-zero or could not be started.
    ConversionFailed { tool_exit_code: i32, stderr_excerpt: String },
    /// A scratch file could not be created, written or read.
    Scratch { details: String },
    /// The remote API answered with a structured error payload.
    GraphqlError { message: String, details: String },
    /// The network transport to the remote API failed.
    Transport { details: String },
    /// The scratch directory could not be removed after an otherwise
    /// successful session.
    Cleanup { details: String },
}

} // verus!
