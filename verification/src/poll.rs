//! The exchange between a query and the caller that talks to the system.

use vstd::prelude::*;

use crate::errors::ProcessResult;
use crate::raw::{OsError, Pid};

verus! {

/// One question to the operating system, for the caller to perform.
#[derive(Clone, Copy, Debug, PartialEq, Eq, Structural)]
pub enum Request {
    /// Fetch the kernel's record of this process.
    Record(Pid),
    /// Look up the absolute path of this process's executable.
    Path(Pid),
    /// Look up this process's working directory.
    Cwd(Pid),
    /// Fetch the resource accounting of this process.
    TaskInfo(Pid),
    /// Check whether this pid still has an entry in the process table.
    Probe(Pid),
    /// List the pids of all processes.
    Pids,
    /// Tell the caller's own pid.
    CurrentPid,
}

/// Where a query stands.
#[derive(Debug, PartialEq, Eq)]
pub enum Poll<V> {
    /// The query is finished, with this answer.
    Ready(V),
    /// The caller has to perform this request and record the reply.
    Pending(Request),
}

/// The standing of a query, with its answer taken by its view.
pub open spec fn answer_view<T: View>(out: Poll<ProcessResult<T>>) -> Poll<ProcessResult<T::V>> {
    match out {
        Poll::Ready(Ok(value)) => Poll::Ready(Ok(value@)),
        Poll::Ready(Err(reason)) => Poll::Ready(Err(reason)),
        Poll::Pending(request) => Poll::Pending(request),
    }
}

/// What the operating system has answered so far within one query.
#[derive(Debug, PartialEq, Eq)]
pub struct Observed<R> {
    /// The reply to the query's own lookup, once made.
    pub raw: Option<Result<R, OsError>>,
    /// The reply to the existence probe, once made.
    pub present: Option<bool>,
}

impl<R> Observed<R> {
    /// Nothing has been asked yet.
    pub open spec fn nothing() -> Self {
        Observed { raw: None, present: None }
    }

    /// These observations, with the reply to the query's own lookup.
    pub open spec fn after_lookup(self, outcome: Result<R, OsError>) -> Self {
        Observed { raw: Some(outcome), present: self.present }
    }

    /// These observations, with the reply to the existence probe.
    pub open spec fn after_probe(self, present: bool) -> Self {
        Observed { raw: self.raw, present: Some(present) }
    }

    /// The lookup failed with `e`; the probe stands at `present`.
    pub open spec fn failing(e: OsError, present: Option<bool>) -> Self {
        Observed { raw: Some(Err(e)), present }
    }

    /// The lookup gave `value`; the probe stands at `present`.
    pub open spec fn holding(value: R, present: Option<bool>) -> Self {
        Observed { raw: Some(Ok(value)), present }
    }

    /// The lookup failed with `e`, and the probe was answered with `present`.
    pub open spec fn lost(e: OsError, present: bool) -> Self {
        Self::failing(e, Some(present))
    }

    /// Nothing has been asked yet.
    pub fn new() -> (seen: Self)
        ensures
            seen == Self::nothing(),
    {
        Observed { raw: None, present: None }
    }

    /// Records the reply to the query's own lookup.
    pub fn fetched(&mut self, outcome: Result<R, OsError>)
        ensures
            *final(self) == old(self).after_lookup(outcome),
    {
        self.raw = Some(outcome);
    }

    /// Records the reply to the existence probe.
    pub fn probed(&mut self, present: bool)
        ensures
            *final(self) == old(self).after_probe(present),
    {
        self.present = Some(present);
    }
}

} // verus!
