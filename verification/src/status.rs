//! The states a process can be in.

use vstd::prelude::*;

verus! {

/// A process state that this library knows.
#[derive(Clone, Copy, Debug, PartialEq, Eq, Structural)]
pub enum Status {
    /// Being created.
    Idle,
    /// Runnable.
    Running,
    /// Sleeping on an address.
    Sleeping,
    /// Stopped, by a signal or a debugger.
    Stopped,
    /// Ended, and waiting for its parent to collect it.
    Zombie,
}

impl Status {
    /// The state that a raw state code stands for, if it is a known one.
    pub open spec fn of_raw(code: i8) -> Option<Status> {
        if code == 1 {
            Some(Status::Idle)
        } else if code == 2 {
            Some(Status::Running)
        } else if code == 3 {
            Some(Status::Sleeping)
        } else if code == 4 {
            Some(Status::Stopped)
        } else if code == 5 {
            Some(Status::Zombie)
        } else {
            None
        }
    }

    /// The raw code that the kernel uses for this state.
    pub open spec fn raw(self) -> i8 {
        match self {
            Status::Idle => 1,
            Status::Running => 2,
            Status::Sleeping => 3,
            Status::Stopped => 4,
            Status::Zombie => 5,
        }
    }

    /// Reads a raw state code. A code outside the known ones gives `None`:
    /// it is never taken for some default state.
    pub fn from_raw(code: i8) -> (status: Option<Status>)
        ensures
            status == Status::of_raw(code),
            status is Some <==> 1 <= code <= 5,
            status matches Some(s) ==> s.raw() == code,
    {
        match code {
            1 => Some(Status::Idle),
            2 => Some(Status::Running),
            3 => Some(Status::Sleeping),
            4 => Some(Status::Stopped),
            5 => Some(Status::Zombie),
            _ => None,
        }
    }
}

} // verus!
