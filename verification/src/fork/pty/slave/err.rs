//! Failures on the slave side of a pseudo-terminal.

use crate::descriptor::DescriptorError;
use crate::error::errno_message;
use vstd::prelude::*;

verus! {

/// Why the slave side could not be set up.
#[derive(Clone, Copy, Debug, PartialEq, Eq, Structural)]
pub enum SlaveError {
    /// The slave device could not be opened.
    BadDescriptor(DescriptorError),
    /// The slave could not be duplicated onto a standard stream.
    Dup2Error,
}

impl SlaveError {
    /// The words of `description` for each failure.
    pub open spec fn text(self) -> Seq<char> {
        match self {
            SlaveError::BadDescriptor(_) => "the descriptor as meet an error"@,
            SlaveError::Dup2Error => "the `dup2` has a error, errno isset appropriately."@,
        }
    }

    /// The failure beneath this one, where there is one.
    pub open spec fn nested(self) -> Option<DescriptorError> {
        match self {
            SlaveError::BadDescriptor(err) => Some(err),
            SlaveError::Dup2Error => None,
        }
    }

    /// A short description of the failure.
    pub fn description(&self) -> (text: &'static str)
        ensures
            text@ == self.text(),
    {
        match *self {
            SlaveError::BadDescriptor(_) => "the descriptor as meet an error",
            SlaveError::Dup2Error => "the `dup2` has a error, errno isset appropriately.",
        }
    }

    /// The lower-level cause of the failure, if any.
    pub fn cause(&self) -> (cause: Option<DescriptorError>)
        ensures
            cause == self.nested(),
    {
        match *self {
            SlaveError::BadDescriptor(err) => Some(err),
            _ => None,
        }
    }

    /// The failure as it is shown: by the words of the operating system for
    /// the error code that the last failed call left.
    pub fn to_string(&self) -> String {
        errno_message()
    }
}

} // verus!
