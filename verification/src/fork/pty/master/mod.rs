//! The master side of a pseudo-terminal.

mod err;

pub use self::err::MasterError;
use crate::descriptor::{open_outcome, Descriptor, SENTINEL};
use crate::error::{last_error, Error};
use vstd::prelude::*;

verus! {

/// The handle of a master device.
#[derive(Debug, PartialEq, Eq)]
pub struct Master {
    /// The descriptor of the open master device.
    pub pty: i32,
}

/// What a call that answers with a status returned: the sentinel is `failure`,
/// every other value is handed on.
pub open spec fn status(ret: i32, failure: MasterError) -> Result<i32, MasterError> {
    if ret == SENTINEL {
        Err(failure)
    } else {
        Ok(ret)
    }
}

/// The name that the resolution of the slave device gave, where it gave one:
/// no name and the empty name both count as none.
pub open spec fn resolved(name: Option<Vec<u8>>) -> Option<Seq<u8>> {
    match name {
        Some(bytes) if bytes@.len() > 0 => Some(bytes@),
        _ => None,
    }
}

/// The bytes that a transfer moved, where `ret` is what `read` or `write`
/// returned and is not the sentinel.
pub open spec fn transferred(ret: isize) -> usize {
    ret as usize
}

impl Master {
    /// Wraps the descriptor that opening the master device read-write
    /// returned as `ret`.
    pub fn new(ret: i32) -> (r: Result<Master, MasterError>)
        ensures
            r == match open_outcome(ret) {
                Ok(fd) => Ok(Master { pty: fd }),
                Err(cause) => Err(MasterError::BadDescriptor(cause)),
            },
    {
        match Self::open(ret) {
            Err(cause) => Err(MasterError::BadDescriptor(cause)),
            Ok(fd) => Ok(Master { pty: fd }),
        }
    }

    /// Reads the value `ret` that granting access to the slave device returned.
    pub fn grantpt(&self, ret: i32) -> (r: Result<i32, MasterError>)
        ensures
            r == status(ret, MasterError::GrantptError),
    {
        if ret == SENTINEL {
            Err(MasterError::GrantptError)
        } else {
            Ok(ret)
        }
    }

    /// Reads the value `ret` that unlocking the slave device returned.
    pub fn unlockpt(&self, ret: i32) -> (r: Result<i32, MasterError>)
        ensures
            r == status(ret, MasterError::UnlockptError),
    {
        if ret == SENTINEL {
            Err(MasterError::UnlockptError)
        } else {
            Ok(ret)
        }
    }

    /// Takes over the name that resolving the slave device gave, as a copy
    /// that the caller owns.
    pub fn ptsname(&self, name: Option<Vec<u8>>) -> (r: Result<Vec<u8>, MasterError>)
        ensures
            match r {
                Ok(path) => resolved(name) == Some(path@),
                Err(cause) => resolved(name) is None && cause == MasterError::PtsnameError,
            },
    {
        match name {
            Some(bytes) => {
                if bytes.len() > 0 {
                    Ok(bytes)
                } else {
                    Err(MasterError::PtsnameError)
                }
            },
            None => Err(MasterError::PtsnameError),
        }
    }

    /// The bytes that a read took in, where `ret` is what `read` returned.
    /// A failed read takes in nothing and is no error.
    pub fn read(&self, ret: isize) -> (n: usize)
        ensures
            n == if ret == -1 { 0 } else { transferred(ret) },
            ret >= 0 ==> n == ret,
    {
        if ret == -1 {
            0
        } else {
            ret as usize
        }
    }

    /// The bytes that a write put out, where `ret` is what `write` returned.
    /// A failed write is handed on, with the error code that it left.
    pub fn write(&self, ret: isize) -> (r: Result<usize, Error>)
        ensures
            ret == -1 ==> r is Err,
            ret != -1 ==> r == Ok::<usize, Error>(transferred(ret)),
            ret >= 0 ==> r->Ok_0 == ret,
    {
        if ret == -1 {
            Err(last_error())
        } else {
            Ok(ret as usize)
        }
    }

    /// Nothing is held back by a master, so there is nothing to flush.
    pub fn flush(&self) -> (r: Result<(), Error>)
        ensures
            r == Ok::<(), Error>(()),
    {
        Ok(())
    }
}

impl Descriptor for Master {
    open spec fn fd(&self) -> i32 {
        self.pty
    }

    fn as_raw_fd(&self) -> (fd: i32) {
        self.pty
    }
}

} // verus!
