//! The enumeration pipeline: a handle, or a reason, for every listed pid.

use vstd::prelude::*;

use crate::errors::ProcessResult;
use crate::pids::{enumerated, pids};
use crate::poll::{Observed, Poll, Request};
use crate::process::{get, get_answer, Identity, Process};
use crate::raw::{OsError, Pid, RawRecord};

verus! {

/// What the system has answered so far within one walk over all processes.
#[derive(Debug, PartialEq, Eq)]
pub struct Listing {
    /// The reply to the bulk listing of pids, once made.
    pub pids: Option<Result<Vec<Pid>, OsError>>,
    /// What has been answered about each entry of the listing, in its order.
    /// Entries past the end have not been asked about yet.
    pub seen: Vec<Observed<RawRecord>>,
}

/// What has been answered about entry `i`: nothing, past the end of `seen`.
pub open spec fn seen_at(seen: Seq<Observed<RawRecord>>, i: int) -> Observed<RawRecord> {
    if 0 <= i < seen.len() {
        seen[i]
    } else {
        Observed::nothing()
    }
}

/// The standing of one item of the walk: a listed pid is looked up as `get`
/// does; a failed listing is passed on as it is.
pub open spec fn item_answer(entry: ProcessResult<Pid>, seen: Observed<RawRecord>) -> Poll<
    ProcessResult<Identity>,
> {
    match entry {
        Ok(pid) => get_answer(pid, seen),
        Err(reason) => Poll::Ready(Err(reason)),
    }
}

/// The standing of item `i` of the walk over `entries`.
pub open spec fn item_at(
    entries: Seq<ProcessResult<Pid>>,
    seen: Seq<Observed<RawRecord>>,
    i: int,
) -> Poll<ProcessResult<Identity>> {
    item_answer(entries[i], seen_at(seen, i))
}

/// `out` is the standing of the walk over `entries`.
///
/// The walk is finished when every item is: it then holds exactly one item
/// per entry, in the entries' order, each the answer for its own entry alone.
/// Otherwise it waits for what the first unfinished item waits for.
pub open spec fn is_walk(
    entries: Seq<ProcessResult<Pid>>,
    seen: Seq<Observed<RawRecord>>,
    out: Poll<Seq<ProcessResult<Identity>>>,
) -> bool {
    match out {
        Poll::Ready(items) => {
            &&& items.len() == entries.len()
            &&& forall|i: int|
                0 <= i < entries.len() ==> #[trigger] item_at(entries, seen, i) == Poll::Ready(
                    items[i],
                )
        },
        Poll::Pending(request) => exists|k: int|
            {
                &&& 0 <= k < entries.len()
                &&& forall|i: int| 0 <= i < k ==> #[trigger] item_at(entries, seen, i) is Ready
                &&& #[trigger] item_at(entries, seen, k) == Poll::<
                    ProcessResult<Identity>,
                >::Pending(request)
            },
    }
}

/// `out` is the standing of the pipeline, given the reply to the bulk listing
/// so far and what was seen of its entries.
pub open spec fn is_processes_answer(
    listed: Option<Result<Vec<Pid>, OsError>>,
    seen: Seq<Observed<RawRecord>>,
    out: Poll<Seq<ProcessResult<Identity>>>,
) -> bool {
    match listed {
        None => out == Poll::<Seq<ProcessResult<Identity>>>::Pending(Request::Pids),
        Some(outcome) => is_walk(enumerated(outcome), seen, out),
    }
}

/// The replies held are replies to what the pipeline asked for, in the order
/// in which it asked: nothing was seen of any entry before the listing was
/// there; entries were looked up one after the other, each once the one
/// before it was finished; and none beyond those listed.
pub open spec fn in_step(
    listed: Option<Result<Vec<Pid>, OsError>>,
    seen: Seq<Observed<RawRecord>>,
) -> bool {
    match listed {
        None => seen.len() == 0,
        Some(Err(_)) => seen.len() == 0,
        Some(Ok(pids)) => {
            &&& seen.len() <= pids@.len()
            &&& forall|i: int| 0 <= i < seen.len() ==> (#[trigger] seen[i]).raw is Some
            &&& forall|i: int|
                0 <= i < seen.len() - 1 ==> #[trigger] item_at(enumerated(Ok(pids)), seen, i)
                    is Ready
        },
    }
}

/// One item of the pipeline, with a handle taken by its view.
pub open spec fn item_view(item: ProcessResult<Process>) -> ProcessResult<Identity> {
    match item {
        Ok(process) => Ok(process@),
        Err(reason) => Err(reason),
    }
}

/// The standing of the pipeline, with each handle taken by its view.
pub open spec fn items_view(out: Poll<Vec<ProcessResult<Process>>>) -> Poll<
    Seq<ProcessResult<Identity>>,
> {
    match out {
        Poll::Ready(items) => Poll::Ready(Seq::new(items@.len(), |i: int| item_view(items@[i]))),
        Poll::Pending(request) => Poll::Pending(request),
    }
}

impl Listing {
    /// Nothing has been asked yet.
    pub fn new() -> (listing: Self)
        ensures
            listing.pids is None,
            listing.seen@.len() == 0,
    {
        Listing { pids: None, seen: Vec::new() }
    }

    /// Records the reply to the bulk listing of pids.
    pub fn listed(&mut self, outcome: Result<Vec<Pid>, OsError>)
        ensures
            final(self).pids == Some(outcome),
            final(self).seen == old(self).seen,
    {
        self.pids = Some(outcome);
    }

    /// Records the reply to the lookup of the next entry's record.
    pub fn fetched(&mut self, outcome: Result<RawRecord, OsError>)
        ensures
            final(self).pids == old(self).pids,
            final(self).seen@ == old(self).seen@.push(
                Observed::<RawRecord>::nothing().after_lookup(outcome),
            ),
    {
        self.seen.push(Observed { raw: Some(outcome), present: None });
    }

    /// Records the reply to the existence probe, which is about the entry
    /// looked up last. Where none was looked up yet, there is nothing to
    /// record it with.
    pub fn probed(&mut self, present: bool)
        ensures
            final(self).pids == old(self).pids,
            old(self).seen@.len() == 0 ==> final(self).seen@ == old(self).seen@,
            old(self).seen@.len() > 0 ==> final(self).seen@ == old(self).seen@.update(
                old(self).seen@.len() - 1,
                old(self).seen@.last().after_probe(present),
            ),
    {
        match self.seen.pop() {
            None => {},
            Some(last) => {
                self.seen.push(Observed { raw: last.raw, present: Some(present) });
                assert(self.seen@ =~= old(self).seen@.update(
                    old(self).seen@.len() - 1,
                    old(self).seen@.last().after_probe(present),
                ));
            },
        }
    }
}

/// Walks over all processes: lists the pids, then makes a handle on each.
///
/// Every listed pid gives exactly one item, a handle or the reason why there
/// is none. A process that ends while the walk is under way costs its own
/// item only. Where the listing itself fails, that failure is the one item.
pub fn processes(listing: &Listing) -> (out: Poll<Vec<ProcessResult<Process>>>)
    ensures
        is_processes_answer(listing.pids, listing.seen@, items_view(out)),
{
    let entries = match pids(&listing.pids) {
        Poll::Pending(request) => {
            return Poll::Pending(request);
        },
        Poll::Ready(entries) => entries,
    };
    let ghost seen = listing.seen@;
    let nothing: Observed<RawRecord> = Observed::new();
    let mut items: Vec<ProcessResult<Process>> = Vec::new();
    let mut i: usize = 0;
    while i < entries.len()
        invariant
            i <= entries.len(),
            items.len() == i,
            seen == listing.seen@,
            listing.pids matches Some(outcome) && entries@ == enumerated(outcome),
            nothing == Observed::<RawRecord>::nothing(),
            forall|j: int|
                0 <= j < i ==> #[trigger] item_at(entries@, seen, j) == Poll::Ready(
                    item_view(items@[j]),
                ),
        decreases entries.len() - i,
    {
        let item: ProcessResult<Process> = match entries[i] {
            Err(reason) => Err(reason),
            Ok(pid) => {
                let at = if i < listing.seen.len() {
                    &listing.seen[i]
                } else {
                    &nothing
                };
                assert(*at == seen_at(seen, i as int));
                match get(pid, at) {
                    Poll::Pending(request) => {
                        assert(item_at(entries@, seen, i as int) == Poll::<
                            ProcessResult<Identity>,
                        >::Pending(request));
                        assert(is_walk(
                            entries@,
                            seen,
                            Poll::<Seq<ProcessResult<Identity>>>::Pending(request),
                        ));
                        return Poll::Pending(request);
                    },
                    Poll::Ready(item) => item,
                }
            },
        };
        assert(item_at(entries@, seen, i as int) == Poll::Ready(item_view(item)));
        items.push(item);
        i += 1;
    }
    Poll::Ready(items)
}

} // verus!
