//! Raw descriptors and the convention by which `open` and `close` report failure.

mod err;

pub use self::err::DescriptorError;
use vstd::prelude::*;

verus! {

/// The value by which a call of the operating system reports that it failed.
pub const SENTINEL: i32 = -1;

/// What `open` returned, read by its convention: the sentinel is a failure,
/// every other value is the descriptor.
pub open spec fn open_outcome(ret: i32) -> Result<i32, DescriptorError> {
    if ret == SENTINEL {
        Err(DescriptorError::OpenFail)
    } else {
        Ok(ret)
    }
}

/// What `close` returned, read by its convention: the sentinel is a failure,
/// every other value a success.
pub open spec fn close_outcome(ret: i32) -> Result<(), DescriptorError> {
    if ret == SENTINEL {
        Err(DescriptorError::CloseFail)
    } else {
        Ok(())
    }
}

/// A handle that owns one raw descriptor.
pub trait Descriptor {
    /// The descriptor that the handle owns.
    spec fn fd(&self) -> i32;

    /// Hands out the raw descriptor.
    fn as_raw_fd(&self) -> (fd: i32)
        ensures
            fd == self.fd(),
    ;

    /// Reads the value `ret` that `open` returned for the handle's path.
    fn open(ret: i32) -> (r: Result<i32, DescriptorError>)
        ensures
            r == open_outcome(ret),
    {
        if ret == SENTINEL {
            Err(DescriptorError::OpenFail)
        } else {
            Ok(ret)
        }
    }

    /// Reads the value `ret` that `close` returned for this handle's descriptor.
    fn close(&self, ret: i32) -> (r: Result<(), DescriptorError>)
        ensures
            r == close_outcome(ret),
    {
        if ret == SENTINEL {
            Err(DescriptorError::CloseFail)
        } else {
            Ok(())
        }
    }
}

} // verus!
