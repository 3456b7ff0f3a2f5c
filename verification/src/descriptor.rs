//! A descriptor as this layer sees it: its number and its status flags.
//!
//! The layer never touches the operating system. Whoever drives it reads a
//! descriptor's status flags into a `Descriptor`, lets the layer change the
//! mode, and writes the flags of the result back.

use crate::flags::{
    flags_for, has_bit, interpreted_flags, lemma_flags_for_idempotent, lemma_with_bit,
    lemma_without_bit, nonblock_bit, spec_apply_mode, spec_has_bit, BlockingMode, FlagError,
};
use vstd::prelude::*;

verus! {

/// An open descriptor: its number, its status flags, and the bit that marks
/// non-blocking mode among them.
#[derive(Clone, Copy, Debug, PartialEq, Eq, Structural)]
pub struct Descriptor {
    pub fd: i32,
    pub flags: i32,
    pub nonblock_bit: i32,
}

impl Descriptor {
    /// Whether the descriptor is in non-blocking mode.
    pub open spec fn spec_is_nonblocking(&self) -> bool {
        spec_has_bit(self.flags, self.nonblock_bit)
    }

    /// The descriptor with its status flags replaced.
    pub open spec fn spec_with_flags(&self, flags: i32) -> Descriptor {
        Descriptor { fd: self.fd, flags, nonblock_bit: self.nonblock_bit }
    }

    /// The descriptor put into `mode`, or `FlagQueryError` where its status
    /// flags cannot be interpreted.
    pub open spec fn spec_with_mode(&self, mode: BlockingMode) -> Result<Descriptor, FlagError> {
        match spec_apply_mode(mode, interpreted_flags(self.flags), self.flags, self.nonblock_bit) {
            Ok(flags) => Ok(self.spec_with_flags(flags)),
            Err(e) => Err(e),
        }
    }

    /// The descriptor as a call that asks for `mode` leaves it: in that mode,
    /// or as it was where the call fails.
    pub open spec fn spec_after(&self, mode: BlockingMode) -> Descriptor {
        match self.spec_with_mode(mode) {
            Ok(changed) => changed,
            Err(_) => *self,
        }
    }

    /// The descriptor `fd` with status flags `flags`, on this platform.
    pub fn new(fd: i32, flags: i32) -> (d: Descriptor)
        ensures
            d.fd == fd,
            d.flags == flags,
    {
        Descriptor { fd, flags, nonblock_bit: nonblock_bit() }
    }

    /// Whether the descriptor is in non-blocking mode.
    pub fn is_nonblocking(&self) -> (r: bool)
        ensures
            r == self.spec_is_nonblocking(),
    {
        has_bit(self.flags, self.nonblock_bit)
    }

    /// The descriptor put into `mode`: only the non-blocking bit of its status
    /// flags changes. Fails with `FlagQueryError` exactly when the status flags
    /// cannot be interpreted.
    pub fn with_mode(&self, mode: BlockingMode) -> (r: Result<Descriptor, FlagError>)
        ensures
            r == self.spec_with_mode(mode),
    {
        match flags_for(mode, self.flags, self.nonblock_bit) {
            Ok(flags) => Ok(Descriptor { fd: self.fd, flags, nonblock_bit: self.nonblock_bit }),
            Err(e) => Err(e),
        }
    }
}

/// Asking for the same mode twice leaves a descriptor as asking once does.
pub proof fn lemma_same_mode_twice(descriptor: Descriptor, mode: BlockingMode)
    ensures
        descriptor.spec_after(mode).spec_after(mode) == descriptor.spec_after(mode),
{
    lemma_flags_for_idempotent(mode, descriptor.flags, descriptor.nonblock_bit);
}

/// A change of mode touches the non-blocking bit alone: the number of the
/// descriptor and every other bit of its status flags stay as they were.
/// After it the descriptor is in the mode asked for.
pub proof fn lemma_mode_change(descriptor: Descriptor, mode: BlockingMode)
    ensures
        descriptor.spec_with_mode(mode) matches Ok(changed) ==> {
            &&& changed.fd == descriptor.fd
            &&& changed.nonblock_bit == descriptor.nonblock_bit
            &&& changed.flags & !descriptor.nonblock_bit == descriptor.flags
                & !descriptor.nonblock_bit
            &&& mode == BlockingMode::NonBlocking ==> changed.spec_is_nonblocking()
            &&& mode == BlockingMode::Blocking ==> changed.flags & descriptor.nonblock_bit == 0
            &&& mode == BlockingMode::Blocking && descriptor.nonblock_bit != 0
                ==> !changed.spec_is_nonblocking()
        },
{
    lemma_with_bit(descriptor.flags, descriptor.nonblock_bit);
    lemma_without_bit(descriptor.flags, descriptor.nonblock_bit);
}

} // verus!
