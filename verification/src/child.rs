//! The result of a fork as a flat record, with failures known by error code.

use crate::error::{last_error, Error};
use crate::fork::{Fork, ForkError};
use vstd::prelude::*;

verus! {

/// The terminal of a child process, as its father holds it.
#[derive(Debug, PartialEq, Eq)]
pub struct ChildPTY {
    /// The descriptor of the terminal's master.
    pub fd: i32,
}

/// A forked process: in the father the child, in the child itself.
#[derive(Debug, PartialEq, Eq)]
pub struct Child {
    /// The child's process id in the father, zero in the child.
    pub pid: i32,
    /// The child's terminal in the father, nothing in the child.
    pub pty: Option<ChildPTY>,
}

/// The error code of a process that has no child to wait for.
pub const ECHILD: i32 = 10;

/// What a wait for a process gave, as far as it matters here.
#[derive(Clone, Copy, Debug, PartialEq, Eq, Structural)]
pub enum Waited {
    /// The process still runs.
    StillAlive,
    /// The process has changed its state.
    Changed,
    /// The wait failed and left this error code.
    Failed(i32),
}

/// What is to be done next for a child that is waited for.
#[derive(Debug, PartialEq, Eq)]
pub enum Reap {
    /// Wait for the process with this id, and report what the wait gave.
    Wait(i32),
    /// The child is gone: close its terminal. What the close gives is what
    /// the wait gives.
    Close(ChildPTY),
    /// The wait failed, or there is nobody to wait for.
    Failed(Error),
}

/// The flat record for a fork that ended well: the father gets the child's
/// process id and terminal, the child gets zero and no terminal.
pub open spec fn flat(fork: Fork) -> Child {
    match fork {
        Fork::Father(pid, master) => Child { pid, pty: Some(ChildPTY { fd: master.pty }) },
        Fork::Child => Child { pid: 0, pty: None },
    }
}

impl Clone for ChildPTY {
    fn clone(&self) -> (copy: ChildPTY)
        ensures
            copy == *self,
    {
        ChildPTY { fd: self.fd }
    }
}

impl Clone for Child {
    fn clone(&self) -> (copy: Child)
        ensures
            copy == *self,
    {
        Child { pid: self.pid, pty: self.pty() }
    }
}

impl Child {
    /// What is to be done for the child once a wait gave `reply`, or before
    /// any wait where `reply` is `None`. A record without terminal is the
    /// child's own: it has nobody to wait for and is told so at once,
    /// whatever the reply.
    pub open spec fn reaped(self, reply: Option<Waited>) -> Reap {
        match self.pty {
            None => Reap::Failed(Error::Sys(ECHILD)),
            Some(pty) => match reply {
                None => Reap::Wait(self.pid),
                Some(Waited::StillAlive) => Reap::Wait(self.pid),
                Some(Waited::Failed(errno)) => Reap::Failed(Error::Sys(errno)),
                Some(Waited::Changed) => Reap::Close(pty),
            },
        }
    }

    /// Returns its pid.
    pub fn pid(&self) -> (pid: i32)
        ensures
            pid == self.pid,
    {
        self.pid
    }

    /// Returns a copy of its pty.
    pub fn pty(&self) -> (pty: Option<ChildPTY>)
        ensures
            pty == self.pty,
    {
        match &self.pty {
            Some(pty) => Some(pty.clone()),
            None => None,
        }
    }

    /// Waits until it is terminated, then closes its pty: says what the
    /// driver is to do next, given what the last wait gave. The child's own
    /// record has nobody to wait for: it fails at once, and no wait is asked
    /// for.
    pub fn wait(&self, reply: Option<Waited>) -> (next: Reap)
        ensures
            next == self.reaped(reply),
            self.pty is None ==> next is Failed,
    {
        match &self.pty {
            None => Reap::Failed(Error::Sys(ECHILD)),
            Some(pty) => match reply {
                None => Reap::Wait(self.pid),
                Some(Waited::StillAlive) => Reap::Wait(self.pid),
                Some(Waited::Failed(errno)) => Reap::Failed(Error::from(errno)),
                Some(Waited::Changed) => Reap::Close(pty.clone()),
            },
        }
    }
}

/// The child's own record is never asked to wait and never to close: whatever
/// a wait gave, and before any wait, it fails with the error code of a process
/// without children.
pub proof fn law_child_record_never_waits(child: Child, reply: Option<Waited>)
    requires
        child.pty is None,
    ensures
        child.reaped(reply) == Reap::Failed(Error::Sys(ECHILD)),
{
}

impl ChildPTY {
    /// Reads the value `ret` that closing its descriptor returned. A negative
    /// value is a failure, handed on with the error code that it left.
    pub fn close(&self, ret: i32) -> (r: Result<(), Error>)
        ensures
            ret < 0 ==> r is Err,
            ret >= 0 ==> r == Ok::<(), Error>(()),
    {
        if ret < 0 {
            Err(last_error())
        } else {
            Ok(())
        }
    }

    /// Hands out the raw descriptor.
    pub fn as_raw_fd(&self) -> (fd: i32)
        ensures
            fd == self.fd,
    {
        self.fd
    }

    /// The bytes that a read took in, where `ret` is what `read` returned.
    /// A failed read takes in nothing and is no error.
    pub fn read(&self, ret: isize) -> (n: usize)
        ensures
            n == if ret < 0 { 0 } else { ret as int },
    {
        if ret < 0 {
            0
        } else {
            ret as usize
        }
    }

    /// The bytes that a write put out, where `ret` is what `write` returned.
    /// A negative value is a failure, handed on with the error code that it
    /// left.
    pub fn write(&self, ret: isize) -> (r: Result<usize, Error>)
        ensures
            ret < 0 ==> r is Err,
            ret >= 0 ==> r is Ok && r->Ok_0 == ret,
    {
        if ret < 0 {
            Err(last_error())
        } else {
            Ok(ret as usize)
        }
    }

    /// Nothing is held back, so there is nothing to flush.
    pub fn flush(&self) -> (r: Result<(), Error>)
        ensures
            r == Ok::<(), Error>(()),
    {
        Ok(())
    }
}

/// The end of a fork with a new pseudo-terminal, as a flat record. A fork that
/// failed is handed on with the error code that the failed call left.
pub fn fork(end: Result<Fork, ForkError>) -> (r: Result<Child, Error>)
    ensures
        match end {
            Ok(fork) => r == Ok::<Child, Error>(flat(fork)),
            Err(_) => r is Err,
        },
{
    match end {
        Ok(Fork::Father(pid, master)) => Ok(Child { pid, pty: Some(ChildPTY { fd: master.pty }) }),
        Ok(Fork::Child) => Ok(Child { pid: 0, pty: None }),
        Err(_) => Err(last_error()),
    }
}

} // verus!
