use heim_process::classifier::{ACCESS, NOT_PERMITTED, NO_SUCH_PROCESS};
use heim_process::{classify, fail, OsError, Poll, ProcessError, ProcessResult, Request};

#[test]
fn error_codes_are_those_of_the_platform() {
    assert_eq!(NO_SUCH_PROCESS, 3);
    assert_eq!(NOT_PERMITTED, 1);
    assert_eq!(ACCESS, 13);
}

#[test]
fn no_record_asks_for_the_probe_first() {
    assert_eq!(
        classify(OsError { code: 3 }, 41, None),
        Poll::Pending(Request::Probe(41))
    );
}

#[test]
fn no_record_and_still_present_is_a_zombie() {
    assert_eq!(
        classify(OsError { code: 3 }, 41, Some(true)),
        Poll::Ready(ProcessError::ZombieProcess(41))
    );
}

#[test]
fn no_record_and_no_trace_is_no_such_process() {
    assert_eq!(
        classify(OsError { code: 3 }, 41, Some(false)),
        Poll::Ready(ProcessError::NoSuchProcess(41))
    );
}

#[test]
fn permission_codes_are_access_denied() {
    assert_eq!(
        classify(OsError { code: 1 }, 7, None),
        Poll::Ready(ProcessError::AccessDenied(7))
    );
    assert_eq!(
        classify(OsError { code: 13 }, 7, None),
        Poll::Ready(ProcessError::AccessDenied(7))
    );
}

#[test]
fn permission_codes_do_not_consult_the_probe() {
    assert_eq!(
        classify(OsError { code: 1 }, 7, Some(true)),
        Poll::Ready(ProcessError::AccessDenied(7))
    );
    assert_eq!(
        classify(OsError { code: 13 }, 7, Some(false)),
        Poll::Ready(ProcessError::AccessDenied(7))
    );
}

#[test]
fn any_other_code_is_passed_on_with_its_cause() {
    for code in [0, 2, 4, 5, 12, 14, 22, -1, i32::MAX, i32::MIN] {
        for present in [None, Some(true), Some(false)] {
            assert_eq!(
                classify(OsError { code }, 9, present),
                Poll::Ready(ProcessError::Other(OsError { code }))
            );
        }
    }
}

#[test]
fn fail_wraps_the_reason_as_an_error() {
    let out: Poll<ProcessResult<u32>> = fail(OsError { code: 3 }, 5, Some(true));
    assert_eq!(out, Poll::Ready(Err(ProcessError::ZombieProcess(5))));
    let out: Poll<ProcessResult<u32>> = fail(OsError { code: 3 }, 5, None);
    assert_eq!(out, Poll::Pending(Request::Probe(5)));
    let out: Poll<ProcessResult<u32>> = fail(OsError { code: 5 }, 5, None);
    assert_eq!(out, Poll::Ready(Err(ProcessError::Other(OsError { code: 5 }))));
}
