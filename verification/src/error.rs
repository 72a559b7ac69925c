//! The errors that the queue and the fault-injection helper report.

use vstd::prelude::*;

verus! {

/// What went wrong.
#[derive(Clone, Copy, Debug, PartialEq, Eq, Structural)]
pub enum ErrorKind {
    /// An operation on the queue did not change its length as it had to.
    QueueInvariantViolation,
    /// A caller-supplied computation aborted instead of completing.
    FaultInjectionAborted,
    /// A queue was asked for with room for no item at all.
    InvalidCapacity,
}

/// The error of every fallible operation of this crate.
#[derive(Clone, Copy, Debug, PartialEq, Eq, Structural)]
pub struct MyError {
    pub kind: ErrorKind,
}

impl MyError {
    /// An error of the given kind.
    pub fn new(kind: ErrorKind) -> (e: Self)
        ensures
            e.kind == kind,
    {
        MyError { kind }
    }

    /// The kind this error was made with.
    pub fn kind(&self) -> (k: ErrorKind)
        ensures
            k == self.kind,
    {
        self.kind
    }
}

} // verus!
