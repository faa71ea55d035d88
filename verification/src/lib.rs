//! Per-process queries over raw operating-system answers.
//!
//! A [`Process`] pins one process by its pid and the instant it started. Every
//! other attribute is asked of the operating system anew on each query. The
//! library makes no system call itself: a query is a function from what the
//! system has answered so far ([`Observed`]) to either the finished answer or
//! the next [`Request`] that the caller has to perform ([`Poll`]). A failed
//! lookup is told apart into "never there", "gone" and "zombie" by the
//! classifier, which asks for one confirming probe where the raw error alone
//! cannot decide.

pub mod classifier;
pub mod errors;
pub mod laws;
pub mod name;
pub mod pids;
pub mod pipeline;
pub mod poll;
pub mod process;
pub mod raw;
pub mod status;

pub use classifier::{classified, classify, fail, failed, is_denied, is_no_record};
pub use errors::{ProcessError, ProcessResult};
pub use name::short_name;
pub use pids::{is_listed, pids};
pub use pipeline::{processes, Listing};
pub use poll::{answer_view, Observed, Poll, Request};
pub use process::{current, get, CpuTime, Identity, Memory, Process};
pub use raw::{OsError, Pid, RawRecord, TaskInfo, Timestamp};
pub use status::Status;
