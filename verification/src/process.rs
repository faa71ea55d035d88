//! The process handle, its queries, and the ways to get one.

use vstd::prelude::*;

use crate::classifier::{fail, failed};
use crate::errors::{ProcessError, ProcessResult};
use crate::name::{name_text, short_name};
use crate::poll::{answer_view, Observed, Poll, Request};
use crate::raw::{OsError, Pid, RawRecord, TaskInfo, Timestamp};
use crate::status::Status;

verus! {

/// What a handle pins: a pid, and the instant at which the process that had
/// it started. Pids are used again once a process has ended, so only the two
/// together name one process.
#[derive(Clone, Copy, Debug, PartialEq, Eq, Structural)]
pub struct Identity {
    pub pid: Pid,
    pub create_time: Timestamp,
}

/// Processor time spent by a process, in nanoseconds.
#[derive(Clone, Copy, Debug, PartialEq, Eq, Structural)]
pub struct CpuTime {
    pub user: u64,
    pub system: u64,
}

/// Memory held by a process, in bytes.
#[derive(Clone, Copy, Debug, PartialEq, Eq, Structural)]
pub struct Memory {
    pub rss: u64,
    pub vms: u64,
}

/// A handle on one process.
///
/// It holds the identity and nothing else: no descriptor, no cached
/// attribute. A handle exists only for a process whose record was fetched
/// once, by `get`.
#[derive(Clone, Copy, Debug, PartialEq, Eq)]
pub struct Process {
    pid: Pid,
    create_time: Timestamp,
}

impl View for Process {
    type V = Identity;

    closed spec fn view(&self) -> Identity {
        Identity { pid: self.pid, create_time: self.create_time }
    }
}

/// The standing of a query for the parent pid of `pid`.
pub open spec fn parent_pid_answer(pid: Pid, seen: Observed<RawRecord>) -> Poll<ProcessResult<Pid>> {
    match seen.raw {
        None => Poll::Pending(Request::Record(pid)),
        Some(Ok(record)) => Poll::Ready(Ok(record.parent_pid)),
        Some(Err(e)) => failed(e, pid, seen.present),
    }
}

/// The standing of a query for the short name of `pid`.
pub open spec fn name_answer(pid: Pid, seen: Observed<RawRecord>) -> Poll<ProcessResult<Seq<char>>> {
    match seen.raw {
        None => Poll::Pending(Request::Record(pid)),
        Some(Ok(record)) => Poll::Ready(Ok(name_text(record.comm@))),
        Some(Err(e)) => failed(e, pid, seen.present),
    }
}

/// The standing of a query for the executable path of `pid`. The kernel task
/// has none to show: for pid 0 nothing is asked and access is denied.
pub open spec fn exe_answer(pid: Pid, seen: Observed<Vec<u8>>) -> Poll<ProcessResult<Seq<u8>>> {
    if pid == 0 {
        Poll::Ready(Err(ProcessError::AccessDenied(pid)))
    } else {
        match seen.raw {
            None => Poll::Pending(Request::Path(pid)),
            Some(Ok(path)) => Poll::Ready(Ok(path@)),
            Some(Err(e)) => failed(e, pid, seen.present),
        }
    }
}

/// The standing of a query for the working directory of `pid`.
pub open spec fn cwd_answer(pid: Pid, seen: Observed<Vec<u8>>) -> Poll<ProcessResult<Seq<u8>>> {
    match seen.raw {
        None => Poll::Pending(Request::Cwd(pid)),
        Some(Ok(path)) => Poll::Ready(Ok(path@)),
        Some(Err(e)) => failed(e, pid, seen.present),
    }
}

/// The standing of a query for the state of `pid`.
pub open spec fn status_answer(pid: Pid, seen: Observed<RawRecord>) -> Poll<ProcessResult<Status>> {
    match seen.raw {
        None => Poll::Pending(Request::Record(pid)),
        Some(Ok(record)) => match Status::of_raw(record.state) {
            Some(status) => Poll::Ready(Ok(status)),
            None => Poll::Ready(Err(ProcessError::Incompatible(pid))),
        },
        Some(Err(e)) => failed(e, pid, seen.present),
    }
}

/// The standing of a query for the processor time of `pid`.
pub open spec fn cpu_time_answer(pid: Pid, seen: Observed<TaskInfo>) -> Poll<ProcessResult<CpuTime>> {
    match seen.raw {
        None => Poll::Pending(Request::TaskInfo(pid)),
        Some(Ok(info)) => Poll::Ready(
            Ok(CpuTime { user: info.total_user, system: info.total_system }),
        ),
        Some(Err(e)) => failed(e, pid, seen.present),
    }
}

/// The standing of a query for the memory of `pid`.
pub open spec fn memory_answer(pid: Pid, seen: Observed<TaskInfo>) -> Poll<ProcessResult<Memory>> {
    match seen.raw {
        None => Poll::Pending(Request::TaskInfo(pid)),
        Some(Ok(info)) => Poll::Ready(
            Ok(Memory { rss: info.resident_size, vms: info.virtual_size }),
        ),
        Some(Err(e)) => failed(e, pid, seen.present),
    }
}

/// The standing of the making of a handle on `pid`.
pub open spec fn get_answer(pid: Pid, seen: Observed<RawRecord>) -> Poll<ProcessResult<Identity>> {
    match seen.raw {
        None => Poll::Pending(Request::Record(pid)),
        Some(Ok(record)) => Poll::Ready(Ok(Identity { pid, create_time: record.start_time })),
        Some(Err(e)) => failed(e, pid, seen.present),
    }
}

/// The standing of the making of a handle on the caller's own process, whose
/// pid is `own` once the system has told it.
pub open spec fn current_answer(own: Option<Pid>, seen: Observed<RawRecord>) -> Poll<
    ProcessResult<Identity>,
> {
    match own {
        None => Poll::Pending(Request::CurrentPid),
        Some(pid) => get_answer(pid, seen),
    }
}

impl Process {
    /// The pid of the process. Asks nothing of the system.
    pub fn pid(&self) -> (pid: Pid)
        ensures
            pid == self@.pid,
    {
        self.pid
    }

    /// The instant the process started, as it was read when the handle was
    /// made. Asks nothing of the system.
    pub fn create_time(&self) -> (time: Timestamp)
        ensures
            time == self@.create_time,
    {
        self.create_time
    }

    /// The pid of the parent process.
    pub fn parent_pid(&self, seen: &Observed<RawRecord>) -> (out: Poll<ProcessResult<Pid>>)
        ensures
            out == parent_pid_answer(self@.pid, *seen),
    {
        match &seen.raw {
            None => Poll::Pending(Request::Record(self.pid)),
            Some(Ok(record)) => Poll::Ready(Ok(record.parent_pid)),
            Some(Err(e)) => fail(*e, self.pid, seen.present),
        }
    }

    /// The short name of the executable.
    pub fn name(&self, seen: &Observed<RawRecord>) -> (out: Poll<ProcessResult<String>>)
        ensures
            answer_view(out) == name_answer(self@.pid, *seen),
    {
        match &seen.raw {
            None => Poll::Pending(Request::Record(self.pid)),
            Some(Ok(record)) => Poll::Ready(Ok(short_name(&record.comm))),
            Some(Err(e)) => fail(*e, self.pid, seen.present),
        }
    }

    /// The absolute path of the executable, in the bytes that the system gave.
    pub fn exe(&self, seen: &Observed<Vec<u8>>) -> (out: Poll<ProcessResult<Vec<u8>>>)
        ensures
            answer_view(out) == exe_answer(self@.pid, *seen),
            self@.pid == 0 ==> out == Poll::<ProcessResult<Vec<u8>>>::Ready(
                Err(ProcessError::AccessDenied(0)),
            ),
    {
        if self.pid == 0 {
            return Poll::Ready(Err(ProcessError::AccessDenied(self.pid)));
        }
        match &seen.raw {
            None => Poll::Pending(Request::Path(self.pid)),
            Some(Ok(path)) => Poll::Ready(Ok(copy_of(path))),
            Some(Err(e)) => fail(*e, self.pid, seen.present),
        }
    }

    /// The working directory, in the bytes that the system gave.
    pub fn cwd(&self, seen: &Observed<Vec<u8>>) -> (out: Poll<ProcessResult<Vec<u8>>>)
        ensures
            answer_view(out) == cwd_answer(self@.pid, *seen),
    {
        match &seen.raw {
            None => Poll::Pending(Request::Cwd(self.pid)),
            Some(Ok(path)) => Poll::Ready(Ok(copy_of(path))),
            Some(Err(e)) => fail(*e, self.pid, seen.present),
        }
    }

    /// The state of the process. A raw state that is not a known one is
    /// reported as such, never read as some other state.
    pub fn status(&self, seen: &Observed<RawRecord>) -> (out: Poll<ProcessResult<Status>>)
        ensures
            out == status_answer(self@.pid, *seen),
            seen.raw matches Some(Ok(record)) && !(1 <= record.state <= 5) ==> out == Poll::<
                ProcessResult<Status>,
            >::Ready(Err(ProcessError::Incompatible(self@.pid))),
    {
        match &seen.raw {
            None => Poll::Pending(Request::Record(self.pid)),
            Some(Ok(record)) => match Status::from_raw(record.state) {
                Some(status) => Poll::Ready(Ok(status)),
                None => Poll::Ready(Err(ProcessError::Incompatible(self.pid))),
            },
            Some(Err(e)) => fail(*e, self.pid, seen.present),
        }
    }

    /// The processor time that the process has spent.
    pub fn cpu_time(&self, seen: &Observed<TaskInfo>) -> (out: Poll<ProcessResult<CpuTime>>)
        ensures
            out == cpu_time_answer(self@.pid, *seen),
    {
        match &seen.raw {
            None => Poll::Pending(Request::TaskInfo(self.pid)),
            Some(Ok(info)) => Poll::Ready(
                Ok(CpuTime { user: info.total_user, system: info.total_system }),
            ),
            Some(Err(e)) => fail(*e, self.pid, seen.present),
        }
    }

    /// The memory that the process holds.
    pub fn memory(&self, seen: &Observed<TaskInfo>) -> (out: Poll<ProcessResult<Memory>>)
        ensures
            out == memory_answer(self@.pid, *seen),
    {
        match &seen.raw {
            None => Poll::Pending(Request::TaskInfo(self.pid)),
            Some(Ok(info)) => Poll::Ready(
                Ok(Memory { rss: info.resident_size, vms: info.virtual_size }),
            ),
            Some(Err(e)) => fail(*e, self.pid, seen.present),
        }
    }
}

/// A copy of `bytes`.
fn copy_of(bytes: &Vec<u8>) -> (copy: Vec<u8>)
    ensures
        copy@ == bytes@,
{
    let mut copy: Vec<u8> = Vec::new();
    let mut i: usize = 0;
    while i < bytes.len()
        invariant
            i <= bytes.len(),
            copy@ == bytes@.take(i as int),
        decreases bytes.len() - i,
    {
        copy.push(bytes[i]);
        i += 1;
        assert(copy@ =~= bytes@.take(i as int));
    }
    assert(bytes@.take(bytes.len() as int) =~= bytes@);
    copy
}

/// Makes a handle on the process `pid`.
///
/// The start time in the fetched record becomes the handle's pinned instant
/// as it stands; a record whose start time the kernel left unfilled gives a
/// handle all the same.
pub fn get(pid: Pid, seen: &Observed<RawRecord>) -> (out: Poll<ProcessResult<Process>>)
    ensures
        answer_view(out) == get_answer(pid, *seen),
{
    match &seen.raw {
        None => Poll::Pending(Request::Record(pid)),
        Some(Ok(record)) => Poll::Ready(Ok(Process { pid, create_time: record.start_time })),
        Some(Err(e)) => fail(*e, pid, seen.present),
    }
}

/// Makes a handle on the caller's own process: asks for its pid, then goes
/// on as `get` does.
pub fn current(own: Option<Pid>, seen: &Observed<RawRecord>) -> (out: Poll<ProcessResult<Process>>)
    ensures
        answer_view(out) == current_answer(own, *seen),
        out matches Poll::Ready(Ok(process)) ==> own == Some(process@.pid),
{
    match own {
        None => Poll::Pending(Request::CurrentPid),
        Some(pid) => get(pid, seen),
    }
}

} // verus!
