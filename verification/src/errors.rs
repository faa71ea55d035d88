//! Why a query about a process failed.

use vstd::prelude::*;

use crate::raw::{OsError, Pid};

verus! {

/// The one reason given for a failed query.
#[derive(Clone, Copy, Debug, PartialEq, Eq, Structural)]
pub enum ProcessError {
    /// No process with this pid is in the process table.
    NoSuchProcess(Pid),
    /// The process has ended, but its entry is kept until its parent reaps it.
    ZombieProcess(Pid),
    /// The caller may not look at this process.
    AccessDenied(Pid),
    /// The kernel reported a process state that this library does not know.
    Incompatible(Pid),
    /// Any other failure, with the raw cause.
    Other(OsError),
}

pub type ProcessResult<T> = Result<T, ProcessError>;

} // verus!
