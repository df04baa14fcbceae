use vstd::prelude::*;

verus! {

/// The top-level operation that a run performs.
#[derive(Clone, Copy, Debug, PartialEq, Eq, Structural)]
pub enum Operation {
    Extract,
    Compress,
    List,
}

/// How a delegated tool failed.
#[derive(Debug, PartialEq, Eq)]
pub enum ToolFailure {
    /// The process ran and ended with this exit code, or with none when a signal ended it.
    Exited(Option<i32>),
    /// The process could not be started; the text says why.
    NotStarted(String),
}

/// Everything that can make a run fail.
#[derive(Debug, PartialEq, Eq)]
pub enum ArchiveError {
    /// The archive name ends in none of the recognised suffixes.
    UnsupportedFormat { path: String },
    /// The implicit extraction directory could not be created.
    DestinationCreateFailed { path: String, cause: String },
    /// The delegated tool could not be started or exited unsuccessfully.
    ExternalToolFailed { operation: Operation, tool: String, failure: ToolFailure },
    /// No mode was selected.
    MissingMode,
    /// More than one mode was selected.
    ConflictingModes,
}

/// `e` reports that `path` names no supported archive format.
pub open spec fn is_unsupported(e: ArchiveError, path: Seq<char>) -> bool {
    match e {
        ArchiveError::UnsupportedFormat { path: p } => p@ == path,
        _ => false,
    }
}

} // verus!
