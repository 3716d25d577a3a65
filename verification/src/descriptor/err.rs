//! Failures of the two descriptor calls.

use vstd::prelude::*;

verus! {

/// Why a descriptor could not be had or given back.
#[derive(Clone, Copy, Debug, PartialEq, Eq, Structural)]
pub enum DescriptorError {
    /// The path could not be opened.
    OpenFail,
    /// The descriptor could not be closed.
    CloseFail,
}

} // verus!
