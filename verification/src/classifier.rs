//! Telling a failed lookup apart: never there, gone, zombie, or something else.

use vstd::prelude::*;

use crate::errors::{ProcessError, ProcessResult};
use crate::poll::{Poll, Request};
use crate::raw::{OsError, Pid};

verus! {

/// The code for "no process matches" (`ESRCH`).
pub const NO_SUCH_PROCESS: i32 = 3;

/// The code for "operation not permitted" (`EPERM`).
pub const NOT_PERMITTED: i32 = 1;

/// The code for "permission denied" (`EACCES`).
pub const ACCESS: i32 = 13;

/// The raw error says that no record matched the pid.
pub open spec fn is_no_record(e: OsError) -> bool {
    e.code == NO_SUCH_PROCESS
}

/// The raw error says that the caller lacks permission.
pub open spec fn is_denied(e: OsError) -> bool {
    e.code == NOT_PERMITTED || e.code == ACCESS
}

/// The reason that a failed lookup of `pid` with raw error `e` comes down to,
/// given the reply to the existence probe so far.
///
/// Only "no record matched" is ambiguous: the process may be gone for good, or
/// be a zombie whose entry awaits reaping. The probe settles which; until it
/// has been made, it is what is asked for. Every other error is settled by its
/// code alone and the probe is not consulted.
pub open spec fn classified(e: OsError, pid: Pid, present: Option<bool>) -> Poll<ProcessError> {
    if is_no_record(e) {
        match present {
            None => Poll::Pending(Request::Probe(pid)),
            Some(true) => Poll::Ready(ProcessError::ZombieProcess(pid)),
            Some(false) => Poll::Ready(ProcessError::NoSuchProcess(pid)),
        }
    } else if is_denied(e) {
        Poll::Ready(ProcessError::AccessDenied(pid))
    } else {
        Poll::Ready(ProcessError::Other(e))
    }
}

/// Classifies the failure `e` of a lookup of `pid`.
pub fn classify(e: OsError, pid: Pid, present: Option<bool>) -> (verdict: Poll<ProcessError>)
    ensures
        verdict == classified(e, pid, present),
{
    if e.code == NO_SUCH_PROCESS {
        match present {
            None => Poll::Pending(Request::Probe(pid)),
            Some(true) => Poll::Ready(ProcessError::ZombieProcess(pid)),
            Some(false) => Poll::Ready(ProcessError::NoSuchProcess(pid)),
        }
    } else if e.code == NOT_PERMITTED || e.code == ACCESS {
        Poll::Ready(ProcessError::AccessDenied(pid))
    } else {
        Poll::Ready(ProcessError::Other(e))
    }
}

/// Where a query stands once its own lookup of `pid` has failed with `e`:
/// finished with the classified reason, or waiting for the probe.
pub open spec fn failed<T>(e: OsError, pid: Pid, present: Option<bool>) -> Poll<ProcessResult<T>> {
    match classified(e, pid, present) {
        Poll::Ready(reason) => Poll::Ready(Err(reason)),
        Poll::Pending(request) => Poll::Pending(request),
    }
}

/// Turns the failure `e` of a query's own lookup of `pid` into the query's
/// standing. Every query goes through here, so all of them fail alike.
pub fn fail<T>(e: OsError, pid: Pid, present: Option<bool>) -> (out: Poll<ProcessResult<T>>)
    ensures
        out == failed::<T>(e, pid, present),
{
    match classify(e, pid, present) {
        Poll::Ready(reason) => Poll::Ready(Err(reason)),
        Poll::Pending(request) => Poll::Pending(request),
    }
}

} // verus!
