//! The slave side of a pseudo-terminal.

mod err;

pub use self::err::SlaveError;
use crate::descriptor::{open_outcome, Descriptor, SENTINEL};
use vstd::prelude::*;

verus! {

/// The handle of a slave device.
#[derive(Debug, PartialEq, Eq)]
pub struct Slave {
    /// The descriptor of the open slave device.
    pub pts: i32,
}

/// What duplicating a descriptor returned: the sentinel is a failure, every
/// other value is the descriptor that now stands for the same device.
pub open spec fn duplicated(ret: i32) -> Result<i32, SlaveError> {
    if ret == SENTINEL {
        Err(SlaveError::Dup2Error)
    } else {
        Ok(ret)
    }
}

impl Slave {
    /// Wraps the descriptor that opening the resolved slave device read-write
    /// returned as `ret`.
    pub fn new(ret: i32) -> (r: Result<Slave, SlaveError>)
        ensures
            r == match open_outcome(ret) {
                Ok(fd) => Ok(Slave { pts: fd }),
                Err(cause) => Err(SlaveError::BadDescriptor(cause)),
            },
    {
        match Self::open(ret) {
            Err(cause) => Err(SlaveError::BadDescriptor(cause)),
            Ok(fd) => Ok(Slave { pts: fd }),
        }
    }

    /// Reads the value `ret` that duplicating this slave onto a standard
    /// stream returned.
    pub fn dup2(&self, ret: i32) -> (r: Result<i32, SlaveError>)
        ensures
            r == duplicated(ret),
    {
        if ret == SENTINEL {
            Err(SlaveError::Dup2Error)
        } else {
            Ok(ret)
        }
    }
}

impl Descriptor for Slave {
    open spec fn fd(&self) -> i32 {
        self.pts
    }

    fn as_raw_fd(&self) -> (fd: i32) {
        self.pts
    }
}

} // verus!
