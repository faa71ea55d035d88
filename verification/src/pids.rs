//! The pid enumerator: the pids of all processes, as the system listed them.

use vstd::prelude::*;

use crate::errors::{ProcessError, ProcessResult};
use crate::poll::{Poll, Request};
use crate::raw::{OsError, Pid};

verus! {

/// The entry that the enumerator yields for `pid`.
pub open spec fn listed_entry(pid: Pid) -> ProcessResult<Pid> {
    Ok(pid)
}

/// What the enumerator yields for the outcome of the bulk listing: one entry
/// per pid, in the order in which the system gave them; or, where the listing
/// failed, that failure as the one and last entry.
pub open spec fn enumerated(outcome: Result<Vec<Pid>, OsError>) -> Seq<ProcessResult<Pid>> {
    match outcome {
        Ok(pids) => Seq::new(pids@.len(), |i: int| listed_entry(pids@[i])),
        Err(e) => seq![Err(ProcessError::Other(e))],
    }
}

/// The standing of an enumeration, given the reply to the bulk listing so far.
pub open spec fn pids_answer(listed: Option<Result<Vec<Pid>, OsError>>) -> Poll<
    Seq<ProcessResult<Pid>>,
> {
    match listed {
        None => Poll::Pending(Request::Pids),
        Some(outcome) => Poll::Ready(enumerated(outcome)),
    }
}

/// A standing whose answer is a list, with the list taken as a sequence.
pub open spec fn list_view<T>(out: Poll<Vec<T>>) -> Poll<Seq<T>> {
    match out {
        Poll::Ready(items) => Poll::Ready(items@),
        Poll::Pending(request) => Poll::Pending(request),
    }
}

/// Enumerates the pids of all processes.
///
/// The list is taken once, by one request; the entries reflect that one
/// moment and are not brought up to date.
pub fn pids(listed: &Option<Result<Vec<Pid>, OsError>>) -> (out: Poll<Vec<ProcessResult<Pid>>>)
    ensures
        list_view(out) == pids_answer(*listed),
{
    match listed {
        None => Poll::Pending(Request::Pids),
        Some(Err(e)) => {
            let mut entries: Vec<ProcessResult<Pid>> = Vec::new();
            entries.push(Err(ProcessError::Other(*e)));
            assert(entries@ =~= enumerated(Err(*e)));
            Poll::Ready(entries)
        },
        Some(Ok(pids)) => {
            let mut entries: Vec<ProcessResult<Pid>> = Vec::new();
            let mut i: usize = 0;
            while i < pids.len()
                invariant
                    i <= pids.len(),
                    entries.len() == i,
                    forall|j: int| 0 <= j < i ==> entries@[j] == listed_entry(pids@[j]),
                decreases pids.len() - i,
            {
                entries.push(Ok(pids[i]));
                i += 1;
            }
            assert(entries@ =~= enumerated(Ok(*pids)));
            Poll::Ready(entries)
        },
    }
}

/// Whether `pid` is among the listed pids. This answers an existence probe
/// from a fresh listing.
pub fn is_listed(pids: &Vec<Pid>, pid: Pid) -> (present: bool)
    ensures
        present == pids@.contains(pid),
{
    let mut i: usize = 0;
    while i < pids.len()
        invariant
            i <= pids.len(),
            forall|j: int| 0 <= j < i ==> pids@[j] != pid,
        decreases pids.len() - i,
    {
        if pids[i] == pid {
            return true;
        }
        i += 1;
    }
    false
}

} // verus!
