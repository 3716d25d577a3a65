//! The fork as a sequence of calls, one pending at a time.
//!
//! An [`Attach`] is a fork that is under way. It names the call that is
//! pending; the driver makes that call and reports the event; `step` then
//! either names the next call or says how the fork ended. Nothing is ever
//! asked after a failure.

use super::err::ForkError;
use super::pty::{Master, MasterError, Slave, SlaveError};
use super::Fork;
use crate::descriptor::{Descriptor, DescriptorError, SENTINEL};
use crate::fork::pty::master::resolved;
use vstd::pervasive::unreached;
use vstd::prelude::*;

verus! {

/// A standard stream of the child.
#[derive(Clone, Copy, Debug, PartialEq, Eq, Structural)]
pub enum Stream {
    /// Standard input.
    Stdin,
    /// Standard output.
    Stdout,
    /// Standard error.
    Stderr,
}

impl Stream {
    /// The descriptor by which the stream is known.
    pub open spec fn number(self) -> i32 {
        match self {
            Stream::Stdin => 0,
            Stream::Stdout => 1,
            Stream::Stderr => 2,
        }
    }

    /// The stream that is redirected after this one, if any is left.
    pub open spec fn following(self) -> Option<Stream> {
        match self {
            Stream::Stdin => Some(Stream::Stdout),
            Stream::Stdout => Some(Stream::Stderr),
            Stream::Stderr => None,
        }
    }

    /// The descriptor by which the stream is known.
    pub fn fd(&self) -> (fd: i32)
        ensures
            fd == self.number(),
    {
        match *self {
            Stream::Stdin => 0,
            Stream::Stdout => 1,
            Stream::Stderr => 2,
        }
    }

    /// The stream that is redirected after this one, if any is left.
    pub fn next(&self) -> (next: Option<Stream>)
        ensures
            next == self.following(),
    {
        match *self {
            Stream::Stdin => Some(Stream::Stdout),
            Stream::Stdout => Some(Stream::Stderr),
            Stream::Stderr => None,
        }
    }
}

/// How far a fork has come. Each stage has one call pending.
#[derive(Debug, PartialEq, Eq)]
pub enum Stage {
    /// Nothing is done; the master device is to be opened.
    Init,
    /// The master is open; access to its slave is to be granted.
    MasterOpened(Master),
    /// Access is granted; the slave is to be unlocked.
    Granted(Master),
    /// The slave is unlocked; the process is to be forked.
    Unlocked(Master),
    /// This is the child; the slave's name is to be resolved.
    Forked(Master),
    /// The name is known; the child is to start a session of its own.
    Resolved(Master),
    /// The session is started; the master it inherited is to be closed.
    Detached(Master),
    /// The master is closed; the slave device is to be opened.
    Released,
    /// The slave is open; it is to be duplicated onto the stream, and then
    /// onto those that follow it.
    Attaching(Slave, Stream),
    /// All streams are redirected; the slave is to be closed.
    Duplicated(Slave),
}

impl Stage {
    /// Whether the stage comes after the slave's name was resolved.
    pub open spec fn named(self) -> bool {
        self is Resolved || self is Detached || self is Released || self is Attaching
            || self is Duplicated
    }
}

/// A call that the driver is asked to make.
#[derive(Clone, Copy, Debug, PartialEq, Eq, Structural)]
pub enum Request {
    /// Open the master device at the fork's path, read-write.
    OpenMaster,
    /// Grant access to the slave of the master with this descriptor.
    Grantpt(i32),
    /// Unlock the slave of the master with this descriptor.
    Unlockpt(i32),
    /// Fork the process.
    Fork,
    /// Resolve the name of the slave of the master with this descriptor.
    Ptsname(i32),
    /// Start a new session.
    Setsid,
    /// Close this descriptor.
    Close(i32),
    /// Open the slave device at the resolved name, read-write.
    OpenSlave,
    /// Duplicate the first descriptor onto the second.
    Dup2(i32, i32),
}

/// What a call gave. An event of the other kind than the pending call gives
/// reads as a failure of that call.
#[derive(Debug, PartialEq, Eq)]
pub enum Event {
    /// The integer that the call returned.
    Code(i32),
    /// The name that resolving the slave gave, if it gave one.
    Name(Option<Vec<u8>>),
}

impl Event {
    /// The integer that the call returned; the sentinel where the event
    /// carries none.
    pub open spec fn code(self) -> i32 {
        match self {
            Event::Code(ret) => ret,
            Event::Name(_) => SENTINEL,
        }
    }

    /// The name that the call gave, where it gave one that is not empty.
    pub open spec fn name(self) -> Option<Seq<u8>> {
        match self {
            Event::Code(_) => None,
            Event::Name(name) => resolved(name),
        }
    }

    /// The integer that the call returned; the sentinel where the event
    /// carries none.
    pub fn status(&self) -> (ret: i32)
        ensures
            ret == self.code(),
    {
        match self {
            Event::Code(ret) => *ret,
            Event::Name(_) => SENTINEL,
        }
    }

    /// The name that the call gave, as the call gave it.
    pub fn into_name(self) -> (name: Option<Vec<u8>>)
        ensures
            resolved(name) == self.name(),
    {
        match self {
            Event::Code(_) => None,
            Event::Name(name) => name,
        }
    }
}

/// The state of a fork that is under way, as contracts see it.
pub struct Session {
    /// How far the fork has come.
    pub stage: Stage,
    /// The path of the master device.
    pub path: Seq<char>,
    /// The name of the slave device; empty until it is resolved.
    pub name: Seq<u8>,
}

/// Where a step leads: to a further state, or to the end of the fork.
#[derive(Debug, PartialEq, Eq)]
pub enum Progress<S> {
    /// The fork goes on from this state.
    Next(S),
    /// The fork has ended, well or badly.
    Done(Result<Fork, ForkError>),
}

/// The call that is pending at a stage.
pub open spec fn pending(stage: Stage) -> Request {
    match stage {
        Stage::Init => Request::OpenMaster,
        Stage::MasterOpened(master) => Request::Grantpt(master.pty),
        Stage::Granted(master) => Request::Unlockpt(master.pty),
        Stage::Unlocked(_) => Request::Fork,
        Stage::Forked(master) => Request::Ptsname(master.pty),
        Stage::Resolved(_) => Request::Setsid,
        Stage::Detached(master) => Request::Close(master.pty),
        Stage::Released => Request::OpenSlave,
        Stage::Attaching(slave, stream) => Request::Dup2(slave.pts, stream.number()),
        Stage::Duplicated(slave) => Request::Close(slave.pts),
    }
}

/// The state in which a fork on the master device at `path` begins.
pub open spec fn start(path: Seq<char>) -> Session {
    Session { stage: Stage::Init, path, name: Seq::empty() }
}

/// The state with another stage.
pub open spec fn at(s: Session, stage: Stage) -> Progress<Session> {
    Progress::Next(Session { stage, ..s })
}

/// The end of a fork that failed.
pub open spec fn failed(cause: ForkError) -> Progress<Session> {
    Progress::Done(Err(cause))
}

/// Where the event `e`, given by the call pending in state `s`, leads.
pub open spec fn step(s: Session, e: Event) -> Progress<Session> {
    let bad = e.code() == SENTINEL;
    match s.stage {
        Stage::Init => if bad {
            failed(ForkError::BadMaster(MasterError::BadDescriptor(DescriptorError::OpenFail)))
        } else {
            at(s, Stage::MasterOpened(Master { pty: e.code() }))
        },
        Stage::MasterOpened(master) => if bad {
            failed(ForkError::BadMaster(MasterError::GrantptError))
        } else {
            at(s, Stage::Granted(master))
        },
        Stage::Granted(master) => if bad {
            failed(ForkError::BadMaster(MasterError::UnlockptError))
        } else {
            at(s, Stage::Unlocked(master))
        },
        Stage::Unlocked(master) => if bad {
            failed(ForkError::Failure)
        } else if e.code() == 0 {
            at(s, Stage::Forked(master))
        } else {
            Progress::Done(Ok(Fork::Father(e.code(), master)))
        },
        Stage::Forked(master) => match e.name() {
            None => failed(ForkError::BadMaster(MasterError::PtsnameError)),
            Some(name) => Progress::Next(Session { stage: Stage::Resolved(master), name, ..s }),
        },
        Stage::Resolved(master) => if bad {
            failed(ForkError::SetsidFail)
        } else {
            at(s, Stage::Detached(master))
        },
        Stage::Detached(_) => if bad {
            failed(ForkError::BadDescriptorMaster(DescriptorError::CloseFail))
        } else {
            at(s, Stage::Released)
        },
        Stage::Released => if bad {
            failed(ForkError::BadSlave(SlaveError::BadDescriptor(DescriptorError::OpenFail)))
        } else {
            at(s, Stage::Attaching(Slave { pts: e.code() }, Stream::Stdin))
        },
        Stage::Attaching(slave, stream) => if bad {
            failed(ForkError::BadSlave(SlaveError::Dup2Error))
        } else {
            match stream.following() {
                Some(next) => at(s, Stage::Attaching(slave, next)),
                None => at(s, Stage::Duplicated(slave)),
            }
        },
        Stage::Duplicated(_) => if bad {
            failed(ForkError::BadDescriptorSlave(DescriptorError::CloseFail))
        } else {
            Progress::Done(Ok(Fork::Child))
        },
    }
}

/// Where the events from the `i`-th on lead from state `s`, each taken as the
/// answer to the call then pending. Events that come after the end of the fork
/// are not looked at.
pub open spec fn run_from(s: Session, events: Seq<Event>, i: int) -> Progress<Session>
    decreases events.len() - i,
{
    if 0 <= i < events.len() {
        match step(s, events[i]) {
            Progress::Next(next) => run_from(next, events, i + 1),
            Progress::Done(end) => Progress::Done(end),
        }
    } else {
        Progress::Next(s)
    }
}

/// Where the events lead from state `s`.
pub open spec fn run(s: Session, events: Seq<Event>) -> Progress<Session> {
    run_from(s, events, 0)
}

/// The calls that are asked for from state `s` on while the events from the
/// `i`-th on come in: the call pending in `s`, then the call that each event
/// leads to. The end of the fork asks for nothing.
pub open spec fn asked_from(s: Session, events: Seq<Event>, i: int) -> Seq<Request>
    decreases events.len() - i,
{
    if 0 <= i < events.len() {
        match step(s, events[i]) {
            Progress::Next(next) => seq![pending(s.stage)] + asked_from(next, events, i + 1),
            Progress::Done(_) => seq![pending(s.stage)],
        }
    } else {
        seq![pending(s.stage)]
    }
}

/// The calls that are asked for from state `s` on while the events come in.
pub open spec fn asked(s: Session, events: Seq<Event>) -> Seq<Request> {
    asked_from(s, events, 0)
}

impl Session {
    /// The slave's name is known from the stage at which it is resolved up to
    /// the stage at which the slave is opened.
    pub open spec fn wf(self) -> bool {
        (self.stage is Resolved || self.stage is Detached || self.stage is Released)
            ==> self.name.len() > 0
    }
}

/// A fork that is under way.
#[derive(Debug, PartialEq, Eq)]
pub struct Attach {
    stage: Stage,
    path: &'static str,
    name: Vec<u8>,
}

impl View for Attach {
    type V = Session;

    closed spec fn view(&self) -> Session {
        Session { stage: self.stage, path: self.path@, name: self.name@ }
    }
}

impl Progress<Attach> {
    /// The same progress, with the state as contracts see it.
    pub open spec fn model(self) -> Progress<Session> {
        match self {
            Progress::Next(attach) => Progress::Next(attach@),
            Progress::Done(end) => Progress::Done(end),
        }
    }
}

impl Attach {
    #[verifier::type_invariant]
    spec fn inv(self) -> bool {
        self@.wf()
    }

    /// A fork on the master device at `path`, with nothing done yet.
    pub(crate) fn begin(path: &'static str) -> (attach: Attach)
        ensures
            attach@ == start(path@),
    {
        Attach { stage: Stage::Init, path, name: Vec::new() }
    }

    /// The call that the driver is to make next.
    pub fn request(&self) -> (request: Request)
        ensures
            request == pending(self@.stage),
    {
        match &self.stage {
            Stage::Init => Request::OpenMaster,
            Stage::MasterOpened(master) => Request::Grantpt(master.as_raw_fd()),
            Stage::Granted(master) => Request::Unlockpt(master.as_raw_fd()),
            Stage::Unlocked(_) => Request::Fork,
            Stage::Forked(master) => Request::Ptsname(master.as_raw_fd()),
            Stage::Resolved(_) => Request::Setsid,
            Stage::Detached(master) => Request::Close(master.as_raw_fd()),
            Stage::Released => Request::OpenSlave,
            Stage::Attaching(slave, stream) => Request::Dup2(slave.as_raw_fd(), stream.fd()),
            Stage::Duplicated(slave) => Request::Close(slave.as_raw_fd()),
        }
    }

    /// The path of the master device, for the driver to open.
    pub fn path(&self) -> (path: &'static str)
        ensures
            path@ == self@.path,
    {
        self.path
    }

    /// The name of the slave device, for the driver to open. It is not empty
    /// when the slave is to be opened.
    pub fn slave_name(&self) -> (name: &Vec<u8>)
        ensures
            name@ == self@.name,
            pending(self@.stage) == Request::OpenSlave ==> name@.len() > 0,
    {
        proof {
            use_type_invariant(self);
        }
        &self.name
    }

    /// Takes the event that the pending call gave, and goes on to the next
    /// call or ends the fork.
    pub fn step(self, event: Event) -> (progress: Progress<Attach>)
        ensures
            progress.model() == step(self@, event),
    {
        proof {
            use_type_invariant(&self);
        }
        let Attach { stage, path, name } = self;
        match stage {
            Stage::Init => match Master::new(event.status()) {
                Err(cause) => Progress::Done(Err(ForkError::BadMaster(cause))),
                Ok(master) => Progress::Next(Attach { stage: Stage::MasterOpened(master), path, name }),
            },
            Stage::MasterOpened(master) => match master.grantpt(event.status()) {
                Err(cause) => Progress::Done(Err(ForkError::BadMaster(cause))),
                Ok(_) => Progress::Next(Attach { stage: Stage::Granted(master), path, name }),
            },
            Stage::Granted(master) => match master.unlockpt(event.status()) {
                Err(cause) => Progress::Done(Err(ForkError::BadMaster(cause))),
                Ok(_) => Progress::Next(Attach { stage: Stage::Unlocked(master), path, name }),
            },
            Stage::Unlocked(master) => {
                let pid = event.status();
                if pid == SENTINEL {
                    Progress::Done(Err(ForkError::Failure))
                } else if pid == 0 {
                    Progress::Next(Attach { stage: Stage::Forked(master), path, name })
                } else {
                    Progress::Done(Ok(Fork::Father(pid, master)))
                }
            },
            Stage::Forked(master) => match master.ptsname(event.into_name()) {
                Err(cause) => Progress::Done(Err(ForkError::BadMaster(cause))),
                Ok(name) => Progress::Next(Attach { stage: Stage::Resolved(master), path, name }),
            },
            stage => Attach { stage, path, name }.from_pts(event),
        }
    }

    /// The steps of the child from the resolved name of the slave on: a
    /// session of its own, the inherited master closed, the slave opened,
    /// duplicated onto the standard streams and closed.
    fn from_pts(self, event: Event) -> (progress: Progress<Attach>)
        requires
            self@.stage.named(),
        ensures
            progress.model() == step(self@, event),
    {
        proof {
            use_type_invariant(&self);
        }
        let Attach { stage, path, name } = self;
        match stage {
            Stage::Resolved(master) => {
                if event.status() == SENTINEL {
                    Progress::Done(Err(ForkError::SetsidFail))
                } else {
                    Progress::Next(Attach { stage: Stage::Detached(master), path, name })
                }
            },
            Stage::Detached(master) => match master.close(event.status()) {
                Err(cause) => Progress::Done(Err(ForkError::BadDescriptorMaster(cause))),
                Ok(_) => Progress::Next(Attach { stage: Stage::Released, path, name }),
            },
            Stage::Released => match Slave::new(event.status()) {
                Err(cause) => Progress::Done(Err(ForkError::BadSlave(cause))),
                Ok(slave) => Progress::Next(
                    Attach { stage: Stage::Attaching(slave, Stream::Stdin), path, name },
                ),
            },
            Stage::Attaching(slave, stream) => match slave.dup2(event.status()) {
                Err(cause) => Progress::Done(Err(ForkError::BadSlave(cause))),
                Ok(_) => match stream.next() {
                    Some(next) => Progress::Next(
                        Attach { stage: Stage::Attaching(slave, next), path, name },
                    ),
                    None => Progress::Next(Attach { stage: Stage::Duplicated(slave), path, name }),
                },
            },
            Stage::Duplicated(slave) => match slave.close(event.status()) {
                Err(cause) => Progress::Done(Err(ForkError::BadDescriptorSlave(cause))),
                Ok(_) => Progress::Done(Ok(Fork::Child)),
            },
            _ => unreached(),
        }
    }
}

} // verus!
