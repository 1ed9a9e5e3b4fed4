//! The failure taxonomy of the subsystem. No failure here is fatal to
//! the host application; the callers decide what each one aborts.

use vstd::prelude::*;

verus! {

/// What went wrong during an operation on the log directory.
#[derive(Clone, Copy, PartialEq, Eq, Structural, Debug)]
pub enum LogError {
    /// The data directory could not be resolved.
    DirectoryResolution,
    /// The logs subdirectory could not be created.
    DirectoryCreation,
    /// The log directory's children could not be enumerated.
    FileEnumeration,
    /// One file could not be deleted or truncated.
    PerFileIo,
    /// The current instant could not be computed.
    TimeComputation,
}

impl LogError {
    /// A short description for surfacing to the caller.
    pub fn message(&self) -> (r: &'static str)
        ensures
            *self == LogError::DirectoryResolution ==> r@ == "Failed to resolve data directory"@,
            *self == LogError::DirectoryCreation ==> r@ == "Failed to create log directory"@,
            *self == LogError::FileEnumeration ==> r@ == "Failed to read log directory"@,
            *self == LogError::PerFileIo ==> r@ == "Failed to modify log file"@,
            *self == LogError::TimeComputation ==> r@ == "Failed to get system time"@,
    {
        match self {
            LogError::DirectoryResolution => "Failed to resolve data directory",
            LogError::DirectoryCreation => "Failed to create log directory",
            LogError::FileEnumeration => "Failed to read log directory",
            LogError::PerFileIo => "Failed to modify log file",
            LogError::TimeComputation => "Failed to get system time",
        }
    }
}

} // verus!
