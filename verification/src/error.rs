//! The error taxonomy of an analysis run.
//!
//! Only the precondition failure — a root that is not a directory — is
//! fatal to one `analyze` call; per-file read and decode failures are
//! recovered locally by the loader and never appear here.

use vstd::prelude::*;

verus! {

/// An error surfaced to the caller of the application shell.
#[derive(Debug, Clone, PartialEq, Eq)]
pub enum AppError {
    /// An input/output failure, carrying its message.
    Io(String),
    /// A directory whose entries could not be listed.
    DirReadError(String),
    /// A terminal setup or drawing failure.
    TerminalError(String),
    /// An analysis root that is not a directory.
    AnalysisError(String),
}

pub type AppResult<T> = Result<T, AppError>;

} // verus!
