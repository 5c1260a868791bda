//! Marker types for the two user commands of the application shell.
//!
//! Their dispatch — drawing tables, walking the selection — is terminal
//! work and lives with the shell; the types are part of the library so
//! the shell and its callers share one vocabulary.

use vstd::prelude::*;

verus! {

/// The command that analyzes the selected directory.
#[derive(Debug, Clone, Copy)]
pub struct AnalyzeCommand;

/// The command that shows the selected file's path.
#[derive(Debug, Clone, Copy)]
pub struct SelectFileCommand;

} // verus!
