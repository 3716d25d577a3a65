//! Decisions of a pseudo-terminal fork.
//!
//! Forking a process under a fresh pseudo-terminal is a fixed sequence of
//! operating-system calls, each of which may fail. This crate holds every
//! decision of that sequence. The calls are left to a driver: it performs the
//! call that is pending, reports what it returned, and is told what comes next
//! or how the fork ended.

pub mod child;
pub mod descriptor;
pub mod error;
pub mod fork;

pub use child::{fork, Child, ChildPTY};
pub use error::Error;
