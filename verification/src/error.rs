//! Failures named by the code that the operating system left behind.

use vstd::prelude::*;

verus! {

/// The text that the platform's table of error codes holds for `code`.
pub uninterp spec fn errno_desc(code: i32) -> Seq<char>;

/// A failed call, known only by the error code it left.
#[derive(Clone, Copy, Debug, PartialEq, Eq, Structural)]
pub enum Error {
    /// The error code of the operating system.
    Sys(i32),
}

impl Error {
    /// The error code that the value carries.
    pub open spec fn code(self) -> i32 {
        match self {
            Error::Sys(n) => n,
        }
    }

    /// The platform's words for the error code.
    pub fn description(&self) -> (text: &'static str)
        ensures
            text@ == errno_desc(self.code()),
    {
        match *self {
            Error::Sys(n) => errno_text(n),
        }
    }

    /// The error as it is shown: by its description.
    pub fn to_string(&self) -> (shown: String)
        ensures
            shown@ == errno_desc(self.code()),
    {
        self.description().to_owned()
    }
}

/// The failure that the last call of the operating system left.
pub(crate) fn last_error() -> Error {
    Error::from(last_errno())
}

impl From<i32> for Error {
    fn from(n: i32) -> (e: Error) {
        Error::Sys(n)
    }
}

impl vstd::std_specs::convert::FromSpecImpl<i32> for Error {
    open spec fn obeys_from_spec() -> bool {
        true
    }

    open spec fn from_spec(n: i32) -> Error {
        Error::Sys(n)
    }
}

/// Calls `nix::errno::Errno::from_raw` and then `Errno::desc`: the code is
/// looked up in the table of the platform the crate was built for, and the
/// entry's fixed text is handed back. Codes the table lacks get the text of the
/// unknown code. Trusted: the result is that table's text for `code`.
#[verifier::external_body]
fn errno_text(code: i32) -> (text: &'static str)
    ensures
        text@ == errno_desc(code),
{
    nix::errno::Errno::from_raw(code).desc()
}

/// Calls `nix::errno::Errno::last_raw`, which reads the error code that the
/// last failed call of the operating system left for the calling thread.
/// Trusted, with nothing claimed of the code: it is whatever the thread holds.
#[verifier::external_body]
fn last_errno() -> i32 {
    nix::errno::Errno::last_raw()
}

/// Calls `errno::errno`, which reads the error code that the last failed call
/// of the operating system left for the calling thread, and formats it for
/// display: the words of the operating system for the code, in the process's
/// locale. Trusted, with nothing claimed of the words.
#[verifier::external_body]
pub(crate) fn errno_message() -> String {
    format!("{}", errno::errno())
}

} // verus!
