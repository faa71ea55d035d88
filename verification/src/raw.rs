//! Plain values for what the operating system reports about a process.

use vstd::prelude::*;

verus! {

/// Process identifier. Pid 0 is the kernel task.
pub type Pid = u32;

/// A raw error code, as the operating system gave it for a failed call.
#[derive(Clone, Copy, Debug, PartialEq, Eq, Structural)]
pub struct OsError {
    pub code: i32,
}

/// An instant in the kernel's own unit: whole seconds and microseconds.
#[derive(Clone, Copy, Debug, PartialEq, Eq, Structural)]
pub struct Timestamp {
    pub seconds: i64,
    pub microseconds: i32,
}

/// The kernel's record of one process, as fetched by pid.
#[derive(Debug, PartialEq, Eq)]
pub struct RawRecord {
    /// Pid of the parent process.
    pub parent_pid: Pid,
    /// Short executable name: a fixed-width buffer, ended by a NUL byte.
    pub comm: Vec<u8>,
    /// Raw process state code.
    pub state: i8,
    /// The instant the process started.
    pub start_time: Timestamp,
}

/// The kernel's resource accounting of one process, in its own units:
/// nanoseconds for the times, bytes for the sizes.
#[derive(Clone, Copy, Debug, PartialEq, Eq, Structural)]
pub struct TaskInfo {
    pub total_user: u64,
    pub total_system: u64,
    pub resident_size: u64,
    pub virtual_size: u64,
}

} // verus!
