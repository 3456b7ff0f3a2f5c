//! The I/O failures that cross the boundary of the transport layer.

use vstd::prelude::*;

verus! {

/// What kind of failure an operating-system call reported.
#[derive(Clone, Copy, Debug, PartialEq, Eq, Structural)]
pub enum ErrorKind {
    /// Nothing is ready yet: the expected answer of a non-blocking call, to
    /// be tried again later.
    WouldBlock,
    /// Any genuine failure.
    Other,
}

/// A failed operating-system call: its kind and the reason it gave.
#[derive(Clone, Debug)]
pub struct IoError {
    kind: ErrorKind,
    reason: String,
}

impl IoError {
    /// The kind of the failure.
    pub closed spec fn spec_kind(&self) -> ErrorKind {
        self.kind
    }

    /// The reason the operating system gave.
    pub closed spec fn spec_reason(&self) -> Seq<char> {
        self.reason@
    }

    /// A failure of the given kind and reason.
    pub fn new(kind: ErrorKind, reason: &str) -> (e: IoError)
        ensures
            e.spec_kind() == kind,
            e.spec_reason() == reason@,
    {
        IoError { kind, reason: reason.to_owned() }
    }

    /// The kind of the failure.
    pub fn kind(&self) -> (k: ErrorKind)
        ensures
            k == self.spec_kind(),
    {
        self.kind
    }

    /// The reason the operating system gave.
    pub fn reason(&self) -> (s: &String)
        ensures
            s@ == self.spec_reason(),
    {
        &self.reason
    }
}

/// Whether a failure only says that nothing was ready, as opposed to a
/// genuine I/O failure.
pub fn would_block(err: &IoError) -> (r: bool)
    ensures
        r == (err.spec_kind() == ErrorKind::WouldBlock),
{
    err.kind == ErrorKind::WouldBlock
}

} // verus!
