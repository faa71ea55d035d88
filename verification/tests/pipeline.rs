use heim_process::{
    is_listed, pids, processes, Listing, Observed, OsError, Pid, Poll, ProcessError,
    ProcessResult, RawRecord, Request, Timestamp,
};

fn started(seconds: i64) -> RawRecord {
    RawRecord {
        parent_pid: 1,
        comm: b"proc\0".to_vec(),
        state: 2,
        start_time: Timestamp { seconds, microseconds: 0 },
    }
}

#[test]
fn pids_asks_for_the_listing() {
    assert_eq!(pids(&None), Poll::Pending(Request::Pids));
}

#[test]
fn pids_yields_the_listed_pids_in_order() {
    let entries: Vec<ProcessResult<Pid>> = vec![Ok(5), Ok(1), Ok(0), Ok(5)];
    assert_eq!(pids(&Some(Ok(vec![5, 1, 0, 5]))), Poll::Ready(entries));
    assert_eq!(pids(&Some(Ok(vec![]))), Poll::Ready(vec![]));
}

#[test]
fn pids_failure_is_one_last_entry() {
    assert_eq!(
        pids(&Some(Err(OsError { code: 12 }))),
        Poll::Ready(vec![Err(ProcessError::Other(OsError { code: 12 }))])
    );
    // The listing's failure is passed on as it is, whatever its code.
    assert_eq!(
        pids(&Some(Err(OsError { code: 3 }))),
        Poll::Ready(vec![Err(ProcessError::Other(OsError { code: 3 }))])
    );
    assert_eq!(
        pids(&Some(Err(OsError { code: 1 }))),
        Poll::Ready(vec![Err(ProcessError::Other(OsError { code: 1 }))])
    );
}

#[test]
fn is_listed_is_membership() {
    let listed: Vec<Pid> = vec![0, 1, 77, 300];
    assert!(is_listed(&listed, 0));
    assert!(is_listed(&listed, 300));
    assert!(!is_listed(&listed, 2));
    assert!(!is_listed(&vec![], 0));
}

#[test]
fn listing_records_replies_at_the_entry_asked_about() {
    let mut listing = Listing::new();
    assert_eq!(listing, Listing { pids: None, seen: vec![] });
    listing.probed(true);
    assert_eq!(listing, Listing { pids: None, seen: vec![] });
    listing.listed(Ok(vec![4, 9]));
    listing.fetched(Ok(started(10)));
    listing.fetched(Err(OsError { code: 3 }));
    listing.probed(false);
    assert_eq!(
        listing,
        Listing {
            pids: Some(Ok(vec![4, 9])),
            seen: vec![
                Observed { raw: Some(Ok(started(10))), present: None },
                Observed { raw: Some(Err(OsError { code: 3 })), present: Some(false) },
            ],
        }
    );
}

#[test]
fn processes_walks_the_listing_request_by_request() {
    let mut listing = Listing::new();
    assert_eq!(processes(&listing), Poll::Pending(Request::Pids));
    listing.listed(Ok(vec![4, 9, 11]));
    assert_eq!(processes(&listing), Poll::Pending(Request::Record(4)));
    listing.fetched(Ok(started(10)));
    assert_eq!(processes(&listing), Poll::Pending(Request::Record(9)));
    // Pid 9 has ended since the listing was taken.
    listing.fetched(Err(OsError { code: 3 }));
    assert_eq!(processes(&listing), Poll::Pending(Request::Probe(9)));
    listing.probed(false);
    assert_eq!(processes(&listing), Poll::Pending(Request::Record(11)));
    listing.fetched(Ok(started(30)));
    match processes(&listing) {
        Poll::Ready(items) => {
            assert_eq!(items.len(), 3);
            let first = items[0].expect("pid 4 lives");
            assert_eq!(first.pid(), 4);
            assert_eq!(first.create_time(), Timestamp { seconds: 10, microseconds: 0 });
            assert_eq!(items[1], Err(ProcessError::NoSuchProcess(9)));
            let last = items[2].expect("pid 11 lives");
            assert_eq!(last.pid(), 11);
            assert_eq!(last.create_time(), Timestamp { seconds: 30, microseconds: 0 });
        }
        other => panic!("the walk is not finished: {:?}", other),
    }
}

#[test]
fn processes_gives_each_failure_its_own_item() {
    let listing = Listing {
        pids: Some(Ok(vec![1, 2, 3, 4])),
        seen: vec![
            Observed { raw: Some(Err(OsError { code: 1 })), present: None },
            Observed { raw: Some(Err(OsError { code: 3 })), present: Some(true) },
            Observed { raw: Some(Err(OsError { code: 5 })), present: None },
            Observed { raw: Some(Ok(started(7))), present: None },
        ],
    };
    match processes(&listing) {
        Poll::Ready(items) => {
            assert_eq!(items.len(), 4);
            assert_eq!(items[0], Err(ProcessError::AccessDenied(1)));
            assert_eq!(items[1], Err(ProcessError::ZombieProcess(2)));
            assert_eq!(items[2], Err(ProcessError::Other(OsError { code: 5 })));
            assert_eq!(items[3].expect("pid 4 lives").pid(), 4);
        }
        other => panic!("the walk is not finished: {:?}", other),
    }
}

#[test]
fn processes_of_empty_listing_is_empty() {
    let mut listing = Listing::new();
    listing.listed(Ok(vec![]));
    assert_eq!(processes(&listing), Poll::Ready(vec![]));
}

#[test]
fn processes_of_failed_listing_is_that_failure_alone() {
    let mut listing = Listing::new();
    listing.listed(Err(OsError { code: 12 }));
    assert_eq!(
        processes(&listing),
        Poll::Ready(vec![Err(ProcessError::Other(OsError { code: 12 }))])
    );
}
