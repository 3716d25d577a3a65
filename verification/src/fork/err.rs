//! How a fork under a pseudo-terminal can fail.

use super::pty::{MasterError, SlaveError};
use crate::descriptor::DescriptorError;
use crate::error::errno_message;
use vstd::prelude::*;

verus! {

/// Why a fork under a pseudo-terminal failed, or why a question put to its
/// result has no answer.
#[derive(Clone, Copy, Debug, PartialEq, Eq, Structural)]
pub enum ForkError {
    /// The process could not be forked.
    Failure,
    /// The child could not start a session of its own.
    SetsidFail,
    /// Waiting for the child failed.
    WaitpidFail,
    /// The value stands for the child, not for the father.
    IsChild,
    /// The value stands for the father, not for the child.
    IsFather,
    /// The master side failed.
    BadMaster(MasterError),
    /// The slave side failed.
    BadSlave(SlaveError),
    /// The master's descriptor could not be given back.
    BadDescriptorMaster(DescriptorError),
    /// The slave's descriptor could not be given back.
    BadDescriptorSlave(DescriptorError),
}

/// The failure beneath a failed fork.
#[derive(Clone, Copy, Debug, PartialEq, Eq, Structural)]
pub enum Cause {
    /// A failure of the master side.
    Master(MasterError),
    /// A failure of the slave side.
    Slave(SlaveError),
    /// A failure of a descriptor call.
    Descriptor(DescriptorError),
}

impl ForkError {
    /// The words of `description` for each failure.
    pub open spec fn text(self) -> Seq<char> {
        match self {
            ForkError::Failure => "On failure, -1 is returned in the parent,no child process is created, and errno isset appropriately."@,
            ForkError::SetsidFail => "fails if the calling process is alreadya process group leader."@,
            ForkError::WaitpidFail => "Can't suspending the calling process."@,
            ForkError::IsChild => "is child and not father"@,
            ForkError::IsFather => "is father and not child"@,
            ForkError::BadMaster(_) => "the master as meet an error"@,
            ForkError::BadSlave(_) => "the slave as meet an error"@,
            ForkError::BadDescriptorMaster(_) => "the master's descriptor as meet an error"@,
            ForkError::BadDescriptorSlave(_) => "the slave's descriptor as meet an error"@,
        }
    }

    /// The failure beneath this one, where there is one.
    pub open spec fn nested(self) -> Option<Cause> {
        match self {
            ForkError::BadMaster(err) => Some(Cause::Master(err)),
            ForkError::BadSlave(err) => Some(Cause::Slave(err)),
            ForkError::BadDescriptorMaster(err) => Some(Cause::Descriptor(err)),
            ForkError::BadDescriptorSlave(err) => Some(Cause::Descriptor(err)),
            _ => None,
        }
    }

    /// A short description of the failure.
    pub fn description(&self) -> (text: &'static str)
        ensures
            text@ == self.text(),
    {
        match *self {
            ForkError::Failure => "On failure, -1 is returned in the parent,no child process is created, and errno isset appropriately.",
            ForkError::SetsidFail => "fails if the calling process is alreadya process group leader.",
            ForkError::WaitpidFail => "Can't suspending the calling process.",
            ForkError::IsChild => "is child and not father",
            ForkError::IsFather => "is father and not child",
            ForkError::BadMaster(_) => "the master as meet an error",
            ForkError::BadSlave(_) => "the slave as meet an error",
            ForkError::BadDescriptorMaster(_) => "the master's descriptor as meet an error",
            ForkError::BadDescriptorSlave(_) => "the slave's descriptor as meet an error",
        }
    }

    /// The lower-level cause of the failure, if any.
    pub fn cause(&self) -> (cause: Option<Cause>)
        ensures
            cause == self.nested(),
    {
        match *self {
            ForkError::BadMaster(err) => Some(Cause::Master(err)),
            ForkError::BadSlave(err) => Some(Cause::Slave(err)),
            ForkError::BadDescriptorMaster(err) => Some(Cause::Descriptor(err)),
            ForkError::BadDescriptorSlave(err) => Some(Cause::Descriptor(err)),
            _ => None,
        }
    }

    /// The failure as it is shown: by the words of the operating system for
    /// the error code that the last failed call left.
    pub fn to_string(&self) -> String {
        errno_message()
    }
}

} // verus!
