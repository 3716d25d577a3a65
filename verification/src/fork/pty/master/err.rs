//! Failures on the master side of a pseudo-terminal.

use crate::descriptor::DescriptorError;
use crate::error::errno_message;
use vstd::prelude::*;

verus! {

/// Why the master side could not be set up.
#[derive(Clone, Copy, Debug, PartialEq, Eq, Structural)]
pub enum MasterError {
    /// The master device could not be opened.
    BadDescriptor(DescriptorError),
    /// Access to the slave device could not be granted.
    GrantptError,
    /// The slave device could not be unlocked.
    UnlockptError,
    /// The name of the slave device could not be resolved.
    PtsnameError,
}

impl MasterError {
    /// The failure beneath this one, where there is one.
    pub open spec fn nested(self) -> Option<DescriptorError> {
        match self {
            MasterError::BadDescriptor(err) => Some(err),
            _ => None,
        }
    }

    /// The lower-level cause of the failure, if any.
    pub fn cause(&self) -> (cause: Option<DescriptorError>)
        ensures
            cause == self.nested(),
    {
        match *self {
            MasterError::BadDescriptor(err) => Some(err),
            _ => None,
        }
    }

    /// The failure as it is shown: by the words of the operating system for
    /// the error code that the last failed call left.
    pub fn to_string(&self) -> String {
        errno_message()
    }
}

} // verus!
