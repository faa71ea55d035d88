//! What holds of the queries whatever the system answers.

use vstd::prelude::*;

use crate::classifier::{failed, is_no_record};
use crate::errors::{ProcessError, ProcessResult};
use crate::pids::enumerated;
use crate::pipeline::{in_step, is_processes_answer, is_walk, item_at, seen_at};
use crate::poll::{Observed, Poll, Request};
use crate::process::{
    cpu_time_answer, current_answer, cwd_answer, exe_answer, get_answer, memory_answer,
    name_answer, parent_pid_answer, status_answer, CpuTime, Identity, Memory,
};
use crate::raw::{OsError, Pid, RawRecord, TaskInfo};
use crate::status::Status;

verus! {

/// The answer says that the process `pid` is no more: gone, or a zombie.
pub open spec fn says_ended<T>(out: Poll<ProcessResult<T>>, pid: Pid) -> bool {
    ||| out == Poll::<ProcessResult<T>>::Ready(Err(ProcessError::NoSuchProcess(pid)))
    ||| out == Poll::<ProcessResult<T>>::Ready(Err(ProcessError::ZombieProcess(pid)))
}

/// A pid that a fresh listing does not hold, and of which the system finds
/// no record, has no process: `get` fails with `NoSuchProcess`.
pub proof fn law_unlisted_pid_has_no_process(pid: Pid, listed: Seq<Pid>, e: OsError)
    requires
        !listed.contains(pid),
        is_no_record(e),
    ensures
        get_answer(pid, Observed::lost(e, listed.contains(pid))) == Poll::<
            ProcessResult<Identity>,
        >::Ready(Err(ProcessError::NoSuchProcess(pid))),
{
}

/// Every query fails alike: once its own lookup has failed, its standing is
/// what the classifier makes of the error, whichever attribute was asked for.
/// The one exception is the executable path of pid 0, for which nothing is
/// looked up.
pub proof fn law_queries_fail_alike(pid: Pid, e: OsError, present: Option<bool>)
    ensures
        parent_pid_answer(pid, Observed::failing(e, present)) == failed::<Pid>(
            e,
            pid,
            present,
        ),
        name_answer(pid, Observed::failing(e, present)) == failed::<Seq<char>>(
            e,
            pid,
            present,
        ),
        pid != 0 ==> exe_answer(pid, Observed::failing(e, present)) == failed::<Seq<u8>>(
            e,
            pid,
            present,
        ),
        cwd_answer(pid, Observed::failing(e, present)) == failed::<Seq<u8>>(
            e,
            pid,
            present,
        ),
        status_answer(pid, Observed::failing(e, present)) == failed::<
            Status,
        >(e, pid, present),
        cpu_time_answer(pid, Observed::failing(e, present)) == failed::<
            CpuTime,
        >(e, pid, present),
        memory_answer(pid, Observed::failing(e, present)) == failed::<
            Memory,
        >(e, pid, present),
        get_answer(pid, Observed::failing(e, present)) == failed::<Identity>(
            e,
            pid,
            present,
        ),
{
}

/// Where the system finds no record of a pid that the probe still sees, the
/// process is a zombie, and every query that asks the system says so. For the
/// executable path this holds of every pid but 0.
pub proof fn law_zombie_fails_every_query(pid: Pid, e: OsError)
    requires
        is_no_record(e),
    ensures
        parent_pid_answer(pid, Observed::lost(e, true)) == Poll::<ProcessResult<Pid>>::Ready(
            Err(ProcessError::ZombieProcess(pid)),
        ),
        name_answer(pid, Observed::lost(e, true)) == Poll::<ProcessResult<Seq<char>>>::Ready(
            Err(ProcessError::ZombieProcess(pid)),
        ),
        pid != 0 ==> exe_answer(pid, Observed::lost(e, true)) == Poll::<
            ProcessResult<Seq<u8>>,
        >::Ready(Err(ProcessError::ZombieProcess(pid))),
        cwd_answer(pid, Observed::lost(e, true)) == Poll::<ProcessResult<Seq<u8>>>::Ready(
            Err(ProcessError::ZombieProcess(pid)),
        ),
        status_answer(pid, Observed::lost(e, true)) == Poll::<
            ProcessResult<Status>,
        >::Ready(Err(ProcessError::ZombieProcess(pid))),
        cpu_time_answer(pid, Observed::lost(e, true)) == Poll::<
            ProcessResult<CpuTime>,
        >::Ready(Err(ProcessError::ZombieProcess(pid))),
        memory_answer(pid, Observed::lost(e, true)) == Poll::<
            ProcessResult<Memory>,
        >::Ready(Err(ProcessError::ZombieProcess(pid))),
{
}

/// The request, if any, that `out` waits for is the one whose turn it is: the
/// query's own lookup `first` while nothing has been answered, then the probe
/// of `pid`, and that only where the lookup found no record.
pub open spec fn asks_in_turn<R, T>(
    out: Poll<ProcessResult<T>>,
    seen: Observed<R>,
    first: Request,
    pid: Pid,
) -> bool {
    match out {
        Poll::Ready(_) => true,
        Poll::Pending(request) => {
            ||| seen.raw is None && request == first
            ||| {
                &&& seen.raw matches Some(Err(e)) && is_no_record(e)
                &&& seen.present is None
                &&& request == Request::Probe(pid)
            }
        },
    }
}

/// A query asks for its own lookup, then at most for one probe, and is
/// finished once both have been answered.
pub proof fn law_queries_ask_in_turn(
    pid: Pid,
    record: Observed<RawRecord>,
    path: Observed<Vec<u8>>,
    info: Observed<TaskInfo>,
)
    ensures
        asks_in_turn(parent_pid_answer(pid, record), record, Request::Record(pid), pid),
        asks_in_turn(name_answer(pid, record), record, Request::Record(pid), pid),
        asks_in_turn(status_answer(pid, record), record, Request::Record(pid), pid),
        asks_in_turn(get_answer(pid, record), record, Request::Record(pid), pid),
        asks_in_turn(exe_answer(pid, path), path, Request::Path(pid), pid),
        asks_in_turn(cwd_answer(pid, path), path, Request::Cwd(pid), pid),
        asks_in_turn(cpu_time_answer(pid, info), info, Request::TaskInfo(pid), pid),
        asks_in_turn(memory_answer(pid, info), info, Request::TaskInfo(pid), pid),
        record.raw is Some && record.present is Some ==> parent_pid_answer(pid, record) is Ready,
        record.raw is Some && record.present is Some ==> name_answer(pid, record) is Ready,
        record.raw is Some && record.present is Some ==> status_answer(pid, record) is Ready,
        record.raw is Some && record.present is Some ==> get_answer(pid, record) is Ready,
        path.raw is Some && path.present is Some ==> exe_answer(pid, path) is Ready,
        path.raw is Some && path.present is Some ==> cwd_answer(pid, path) is Ready,
        info.raw is Some && info.present is Some ==> cpu_time_answer(pid, info) is Ready,
        info.raw is Some && info.present is Some ==> memory_answer(pid, info) is Ready,
{
}

/// The executable path of pid 0 is denied whatever the system has answered,
/// and without anything being asked of it.
pub proof fn law_exe_of_kernel_task_is_denied(seen: Observed<Vec<u8>>)
    ensures
        exe_answer(0, seen) == Poll::<ProcessResult<Seq<u8>>>::Ready(
            Err(ProcessError::AccessDenied(0)),
        ),
{
}

/// A raw state outside the known ones makes the state query fail as
/// incompatible; no state is made up for it.
pub proof fn law_unknown_state_is_incompatible(
    pid: Pid,
    record: RawRecord,
    present: Option<bool>,
)
    requires
        !(1 <= record.state <= 5),
    ensures
        status_answer(pid, Observed::holding(record, present)) == Poll::<
            ProcessResult<Status>,
        >::Ready(Err(ProcessError::Incompatible(pid))),
{
}

/// A finished walk over a listing holds exactly one item per listed pid, in
/// the listing's order; item `i` is the answer of `get` for pid `i` under what
/// was seen of it, and a handle among the items is a handle on that pid.
pub proof fn law_one_item_per_listed_pid(
    listed: Vec<Pid>,
    seen: Seq<Observed<RawRecord>>,
    items: Seq<ProcessResult<Identity>>,
)
    requires
        is_processes_answer(Some(Ok(listed)), seen, Poll::Ready(items)),
    ensures
        items.len() == listed@.len(),
        forall|i: int|
            0 <= i < listed@.len() ==> get_answer(listed@[i], #[trigger] seen_at(seen, i))
                == Poll::Ready(items[i]),
        forall|i: int|
            0 <= i < listed@.len() ==> (#[trigger] items[i] matches Ok(identity)
                ==> identity.pid == listed@[i]),
{
    let entries = enumerated(Ok::<Vec<Pid>, OsError>(listed));
    assert forall|i: int| 0 <= i < listed@.len() implies get_answer(
        listed@[i],
        #[trigger] seen_at(seen, i),
    ) == Poll::Ready(items[i]) by {
        assert(item_at(entries, seen, i) == Poll::Ready(items[i]));
    }
    assert forall|i: int| 0 <= i < listed@.len() implies (#[trigger] items[i] matches Ok(identity)
        ==> identity.pid == listed@[i]) by {
        assert(item_at(entries, seen, i) == Poll::Ready(items[i]));
    }
}

/// A process that ends while the walk is under way costs its own item only:
/// the walk still finishes with one item per listed pid, and the item of the
/// ended process is the reason, gone or zombie.
pub proof fn law_exit_during_walk_costs_one_item(
    listed: Vec<Pid>,
    seen: Seq<Observed<RawRecord>>,
    items: Seq<ProcessResult<Identity>>,
    k: int,
    e: OsError,
    present: bool,
)
    requires
        is_processes_answer(Some(Ok(listed)), seen, Poll::Ready(items)),
        0 <= k < listed@.len(),
        k < seen.len(),
        seen[k] == Observed::<RawRecord>::lost(e, present),
        is_no_record(e),
    ensures
        items.len() == listed@.len(),
        items[k] == Err::<Identity, ProcessError>(ProcessError::NoSuchProcess(listed@[k]))
            || items[k] == Err::<Identity, ProcessError>(
            ProcessError::ZombieProcess(listed@[k]),
        ),
{
    let entries = enumerated(Ok::<Vec<Pid>, OsError>(listed));
    assert(item_at(entries, seen, k) == Poll::Ready(items[k]));
}

/// A failed listing ends the walk with that failure as its one item.
pub proof fn law_failed_listing_is_one_item(
    e: OsError,
    seen: Seq<Observed<RawRecord>>,
    out: Poll<Seq<ProcessResult<Identity>>>,
)
    requires
        is_processes_answer(Some(Err(e)), seen, out),
    ensures
        out == Poll::Ready(seq![Err::<Identity, ProcessError>(ProcessError::Other(e))]),
{
    let entries = enumerated(Err::<Vec<Pid>, OsError>(e));
    assert(item_at(entries, seen, 0) is Ready);
    match out {
        Poll::Ready(items) => {
            assert(item_at(entries, seen, 0) == Poll::Ready(items[0]));
            assert(items =~= seq![Err::<Identity, ProcessError>(ProcessError::Other(e))]);
        },
        Poll::Pending(request) => {},
    }
}

/// `request` is about the entry whose turn it is: it asks for the record of
/// the first listed pid not yet looked up, or for the probe of the pid looked
/// up last, whose record was not found.
pub open spec fn is_next_in_turn(
    listed: Seq<Pid>,
    seen: Seq<Observed<RawRecord>>,
    request: Request,
) -> bool {
    ||| seen.len() < listed.len() && request == Request::Record(listed[seen.len() as int])
    ||| {
        &&& seen.len() > 0
        &&& request == Request::Probe(listed[seen.len() - 1])
        &&& seen.last().raw matches Some(Err(e)) && is_no_record(e)
        &&& seen.last().present is None
    }
}

/// While the replies are in step, the walk asks about the entry whose turn it
/// is, so that the reply belongs where the listing records it.
pub proof fn law_walk_asks_in_turn(
    listed: Vec<Pid>,
    seen: Seq<Observed<RawRecord>>,
    request: Request,
)
    requires
        in_step(Some(Ok(listed)), seen),
        is_processes_answer(Some(Ok(listed)), seen, Poll::Pending(request)),
    ensures
        is_next_in_turn(listed@, seen, request),
{
    let entries = enumerated(Ok::<Vec<Pid>, OsError>(listed));
    let k = choose|k: int|
        {
            &&& 0 <= k < entries.len()
            &&& forall|i: int| 0 <= i < k ==> #[trigger] item_at(entries, seen, i) is Ready
            &&& #[trigger] item_at(entries, seen, k) == Poll::<ProcessResult<Identity>>::Pending(
                request,
            )
        };
    if k < seen.len() - 1 {
        assert(item_at(entries, seen, k) is Ready);
    } else if k == seen.len() - 1 {
        assert(seen[k].raw is Some);
    } else if k > seen.len() {
        assert(item_at(entries, seen, seen.len() as int) is Ready);
    }
}

/// A listing that holds nothing is in step, and recording the reply to what
/// the walk asked for keeps it so, whatever the reply is. The walk asks for
/// nothing but the listing, a record or a probe.
pub proof fn law_replies_keep_step(
    listed: Option<Result<Vec<Pid>, OsError>>,
    seen: Seq<Observed<RawRecord>>,
    request: Request,
    pids_reply: Result<Vec<Pid>, OsError>,
    record_reply: Result<RawRecord, OsError>,
    probe_reply: bool,
)
    requires
        in_step(listed, seen),
        is_processes_answer(listed, seen, Poll::Pending(request)),
    ensures
        in_step(None, Seq::empty()),
        request is Pids || request is Record || request is Probe,
        request is Pids ==> in_step(Some(pids_reply), seen),
        request is Record ==> in_step(
            listed,
            seen.push(Observed::<RawRecord>::nothing().after_lookup(record_reply)),
        ),
        request is Probe ==> seen.len() > 0 && in_step(
            listed,
            seen.update(seen.len() - 1, seen.last().after_probe(probe_reply)),
        ),
{
    match listed {
        None => {},
        Some(Err(e)) => {
            law_failed_listing_is_one_item(e, seen, Poll::Pending(request));
        },
        Some(Ok(pids)) => {
            law_walk_asks_in_turn(pids, seen, request);
            let entries = enumerated(Ok::<Vec<Pid>, OsError>(pids));
            let k = choose|k: int|
                {
                    &&& 0 <= k < entries.len()
                    &&& forall|i: int| 0 <= i < k ==> #[trigger] item_at(entries, seen, i) is Ready
                    &&& #[trigger] item_at(entries, seen, k) == Poll::<
                        ProcessResult<Identity>,
                    >::Pending(request)
                };
            if request is Record {
                let next = seen.push(Observed::<RawRecord>::nothing().after_lookup(record_reply));
                if k < seen.len() - 1 {
                    assert(item_at(entries, seen, k) is Ready);
                } else if k == seen.len() - 1 {
                    assert(seen[k].raw is Some);
                } else if k > seen.len() {
                    assert(item_at(entries, seen, seen.len() as int) is Ready);
                }
                assert(k == seen.len());
                assert forall|i: int| 0 <= i < next.len() - 1 implies #[trigger] item_at(
                    entries,
                    next,
                    i,
                ) is Ready by {
                    assert(seen_at(next, i) == seen_at(seen, i));
                    assert(item_at(entries, seen, i) is Ready);
                }
            } else {
                let next = seen.update(seen.len() - 1, seen.last().after_probe(probe_reply));
                assert forall|i: int| 0 <= i < next.len() - 1 implies #[trigger] item_at(
                    entries,
                    next,
                    i,
                ) is Ready by {
                    assert(seen_at(next, i) == seen_at(seen, i));
                    assert(item_at(entries, seen, i) is Ready);
                }
            }
        },
    }
}

/// A walk whose items are all finished is finished: no item holds up another.
pub proof fn law_walk_finishes_with_its_items(
    entries: Seq<ProcessResult<Pid>>,
    seen: Seq<Observed<RawRecord>>,
    out: Poll<Seq<ProcessResult<Identity>>>,
)
    requires
        is_walk(entries, seen, out),
        forall|i: int| 0 <= i < entries.len() ==> #[trigger] item_at(entries, seen, i) is Ready,
    ensures
        out is Ready,
{
}

/// The standing of a walk is determined by the entries and what was seen.
pub proof fn law_walk_is_determined(
    entries: Seq<ProcessResult<Pid>>,
    seen: Seq<Observed<RawRecord>>,
    a: Poll<Seq<ProcessResult<Identity>>>,
    b: Poll<Seq<ProcessResult<Identity>>>,
)
    requires
        is_walk(entries, seen, a),
        is_walk(entries, seen, b),
    ensures
        a == b,
{
    match (a, b) {
        (Poll::Ready(x), Poll::Ready(y)) => {
            assert forall|i: int| 0 <= i < x.len() implies x[i] == y[i] by {
                assert(item_at(entries, seen, i) == Poll::Ready(x[i]));
                assert(item_at(entries, seen, i) == Poll::Ready(y[i]));
            }
            assert(x =~= y);
        },
        (Poll::Pending(p), Poll::Pending(q)) => {
            let k = choose|k: int|
                {
                    &&& 0 <= k < entries.len()
                    &&& forall|i: int| 0 <= i < k ==> #[trigger] item_at(entries, seen, i) is Ready
                    &&& #[trigger] item_at(entries, seen, k) == Poll::<
                        ProcessResult<Identity>,
                    >::Pending(p)
                };
            let m = choose|m: int|
                {
                    &&& 0 <= m < entries.len()
                    &&& forall|i: int| 0 <= i < m ==> #[trigger] item_at(entries, seen, i) is Ready
                    &&& #[trigger] item_at(entries, seen, m) == Poll::<
                        ProcessResult<Identity>,
                    >::Pending(q)
                };
            if k < m {
                assert(item_at(entries, seen, k) is Ready);
            } else if m < k {
                assert(item_at(entries, seen, m) is Ready);
            }
        },
        (Poll::Ready(x), Poll::Pending(q)) => {
            let m = choose|m: int|
                {
                    &&& 0 <= m < entries.len()
                    &&& forall|i: int| 0 <= i < m ==> #[trigger] item_at(entries, seen, i) is Ready
                    &&& #[trigger] item_at(entries, seen, m) == Poll::<
                        ProcessResult<Identity>,
                    >::Pending(q)
                };
            assert(item_at(entries, seen, m) == Poll::Ready(x[m]));
        },
        (Poll::Pending(p), Poll::Ready(y)) => {
            let k = choose|k: int|
                {
                    &&& 0 <= k < entries.len()
                    &&& forall|i: int| 0 <= i < k ==> #[trigger] item_at(entries, seen, i) is Ready
                    &&& #[trigger] item_at(entries, seen, k) == Poll::<
                        ProcessResult<Identity>,
                    >::Pending(p)
                };
            assert(item_at(entries, seen, k) == Poll::Ready(y[k]));
        },
    }
}

/// Once the process has ended, a query says so. A query's answer comes from
/// what the system answers to it and from nothing kept of an earlier query:
/// when the system finds no record, the answer is that the process is gone or
/// a zombie, whatever the probe says. For the executable path this holds of
/// every pid but 0.
pub proof fn law_query_after_exit_says_ended(pid: Pid, e: OsError, present: bool)
    requires
        is_no_record(e),
    ensures
        says_ended(parent_pid_answer(pid, Observed::lost(e, present)), pid),
        says_ended(name_answer(pid, Observed::lost(e, present)), pid),
        pid != 0 ==> says_ended(exe_answer(pid, Observed::lost(e, present)), pid),
        says_ended(cwd_answer(pid, Observed::lost(e, present)), pid),
        says_ended(status_answer(pid, Observed::lost(e, present)), pid),
        says_ended(cpu_time_answer(pid, Observed::lost(e, present)), pid),
        says_ended(memory_answer(pid, Observed::lost(e, present)), pid),
        says_ended(get_answer(pid, Observed::lost(e, present)), pid),
{
}

/// A handle on the caller's own process is a handle on the pid that the
/// system told, and nothing is looked up before that pid is known.
pub proof fn law_current_is_own_pid(own: Option<Pid>, seen: Observed<RawRecord>)
    ensures
        own is None ==> current_answer(own, seen) == Poll::<ProcessResult<Identity>>::Pending(
            Request::CurrentPid,
        ),
        current_answer(own, seen) matches Poll::Ready(Ok(identity)) ==> own == Some(identity.pid),
{
}

} // verus!
