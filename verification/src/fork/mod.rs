//! Forking under a pseudo-terminal.

pub mod attach;
pub mod laws;
mod err;
pub mod pty;

pub use self::attach::{Attach, Event, Progress, Request};
pub use self::err::{Cause, ForkError};
pub use self::pty::{Master, MasterError};
use crate::descriptor::SENTINEL;
use vstd::prelude::*;

verus! {

/// The path at which the master device is found by default.
pub const DEFAULT_PTMX: &'static str = "/dev/ptmx";

/// The result of a fork, as each of the two processes sees it.
#[derive(Debug, PartialEq, Eq)]
pub enum Fork {
    /// This is the father: the child's process id, and the master of the
    /// child's terminal.
    Father(i32, Master),
    /// This is the child.
    Child,
}

/// Where waiting for the child stands.
#[derive(Clone, Copy, Debug, PartialEq, Eq)]
pub enum Wait {
    /// The driver is to wait for the process with this id and report what the
    /// wait returned.
    Pending(i32),
    /// The wait is over: the child's process id, or the failure.
    Done(Result<i32, ForkError>),
}

impl Fork {
    /// Where waiting stands once the wait has returned `reply`, or before any
    /// wait where `reply` is `None`. A return of zero says that the child
    /// still runs, and is no answer. The child has nobody to wait for.
    pub open spec fn waited(self, reply: Option<i32>) -> Wait {
        match self {
            Fork::Child => Wait::Done(Err(ForkError::IsChild)),
            Fork::Father(pid, _) => match reply {
                None => Wait::Pending(pid),
                Some(ret) => if ret == 0 {
                    Wait::Pending(pid)
                } else if ret == SENTINEL {
                    Wait::Done(Err(ForkError::WaitpidFail))
                } else {
                    Wait::Done(Ok(pid))
                },
            },
        }
    }

    /// Begins a fork under the pseudo-terminal whose master device is at
    /// `path`.
    pub fn new(path: &'static str) -> (attach: Attach)
        ensures
            attach@ == attach::start(path@),
    {
        Attach::begin(path)
    }

    /// Begins a fork under a pseudo-terminal of the default master device.
    pub fn from_ptmx() -> (attach: Attach)
        ensures
            attach@ == attach::start(DEFAULT_PTMX@),
    {
        Fork::new(DEFAULT_PTMX)
    }

    /// Waits until the child is terminated: says whether the driver is to
    /// wait (again), given what the last wait returned, or how waiting ended.
    pub fn wait(&self, reply: Option<i32>) -> (wait: Wait)
        ensures
            wait == self.waited(reply),
    {
        match *self {
            Fork::Child => Wait::Done(Err(ForkError::IsChild)),
            Fork::Father(pid, _) => match reply {
                None => Wait::Pending(pid),
                Some(0) => Wait::Pending(pid),
                Some(-1) => Wait::Done(Err(ForkError::WaitpidFail)),
                Some(_) => Wait::Done(Ok(pid)),
            },
        }
    }

    /// The master of the child's terminal, which only the father has.
    pub fn is_father(&mut self) -> (r: Result<&mut Master, ForkError>)
        ensures
            match r {
                Ok(master) => *old(self) matches Fork::Father(pid, before)
                    && *master == before
                    && *final(self) == Fork::Father(pid, *final(master)),
                Err(cause) => *old(self) == Fork::Child && *final(self) == Fork::Child
                    && cause == ForkError::IsChild,
            },
    {
        match self {
            Fork::Child => Err(ForkError::IsChild),
            Fork::Father(_, master) => Ok(master),
        }
    }

    /// The process id as the child sees it, which is zero.
    pub fn is_child(&self) -> (r: Result<i32, ForkError>)
        ensures
            r == match *self {
                Fork::Father(_, _) => Err::<i32, ForkError>(ForkError::IsFather),
                Fork::Child => Ok(0),
            },
    {
        match *self {
            Fork::Father(_, _) => Err(ForkError::IsFather),
            Fork::Child => Ok(0),
        }
    }
}

} // verus!
