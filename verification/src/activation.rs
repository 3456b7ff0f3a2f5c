//! Listeners handed over by a supervisor: a process that was started with
//! open descriptors takes the first of them for its listening socket.

use crate::descriptor::Descriptor;
use crate::flags::{lemma_flags_for_idempotent, lemma_with_bit, BlockingMode, FlagError};
use crate::socket::{Listener, Write};
use vstd::prelude::*;

verus! {

/// What a descriptor received from the environment turned out to be.
#[derive(Clone, Copy, Debug, PartialEq, Eq, Structural)]
pub enum DescriptorClass {
    /// A socket of the internet domain.
    NetworkSocket,
    /// A socket of the local domain.
    LocalSocket,
    /// Anything else: a plain file, a pipe, a device.
    Other,
}

/// A descriptor received from the environment, as it was observed: its
/// number, its class, and its status flags where they could be read.
#[derive(Clone, Copy, Debug)]
pub struct ActivationCandidate {
    pub fd: i32,
    pub class: DescriptorClass,
    pub flags: Option<i32>,
}

/// Why no listener came of the descriptors received.
#[derive(Clone, Copy, Debug, PartialEq, Eq, Structural)]
pub enum ActivationError {
    /// No descriptor was passed, or the environment does not say that this
    /// process was started with any.
    NoDescriptors,
    /// The first descriptor is no stream socket of a supported domain.
    UnsupportedDescriptorKind,
    /// The first descriptor could not be put into non-blocking mode.
    Flags(FlagError),
}

/// The descriptor that the listener is made of, or why there is none. Only
/// the first descriptor received counts. It must be a socket of the network or
/// of the local domain, and is put into non-blocking mode.
pub open spec fn spec_active_descriptor(
    received: Seq<ActivationCandidate>,
    nonblock_bit: i32,
) -> Result<Descriptor, ActivationError> {
    if received.len() == 0 {
        Err(ActivationError::NoDescriptors)
    } else if received[0].class == DescriptorClass::Other {
        Err(ActivationError::UnsupportedDescriptorKind)
    } else {
        match received[0].flags {
            None => Err(ActivationError::Flags(FlagError::FlagQueryError)),
            Some(flags) => match (Descriptor {
                fd: received[0].fd,
                flags,
                nonblock_bit,
            }).spec_with_mode(BlockingMode::NonBlocking) {
                Ok(descriptor) => Ok(descriptor),
                Err(e) => Err(ActivationError::Flags(e)),
            },
        }
    }
}

/// The descriptor that a listener is made of is the first one received, and
/// is in non-blocking mode.
pub proof fn lemma_active_descriptor(received: Seq<ActivationCandidate>, nonblock_bit: i32)
    ensures
        spec_active_descriptor(received, nonblock_bit) matches Ok(descriptor) ==> {
            &&& received.len() > 0
            &&& descriptor.fd == received[0].fd
            &&& descriptor.spec_is_nonblocking()
        },
{
    if received.len() > 0 && received[0].flags is Some {
        lemma_with_bit(received[0].flags.unwrap(), nonblock_bit);
    }
}

/// Makes a listener of the kind asked for out of the descriptors that the
/// environment passed to this process. `received` holds them in the order in
/// which they were passed, each as it was observed.
///
/// The listener's descriptor is in non-blocking mode. Its status flags are to
/// be written back to the operating system before the listener is used.
pub fn get_active_socket<L: Listener>(received: &Vec<ActivationCandidate>, nonblock_bit: i32) -> (r:
    Result<L, ActivationError>)
    ensures
        match spec_active_descriptor(received@, nonblock_bit) {
            Ok(descriptor) => r is Ok && r.unwrap().descriptor() == descriptor
                && descriptor.spec_is_nonblocking(),
            Err(e) => r == Err::<L, ActivationError>(e),
        },
{
    if received.len() == 0 {
        return Err(ActivationError::NoDescriptors);
    }
    let candidate = &received[0];
    match candidate.class {
        DescriptorClass::Other => {
            return Err(ActivationError::UnsupportedDescriptorKind);
        },
        _ => {},
    }
    let flags = match candidate.flags {
        Some(flags) => flags,
        None => {
            return Err(ActivationError::Flags(FlagError::FlagQueryError));
        },
    };
    let observed = Descriptor { fd: candidate.fd, flags, nonblock_bit };
    match observed.with_mode(BlockingMode::NonBlocking) {
        Ok(descriptor) => {
            proof {
                lemma_with_bit(flags, nonblock_bit);
                lemma_flags_for_idempotent(BlockingMode::NonBlocking, flags, nonblock_bit);
            }
            Ok(L::from_descriptor(descriptor))
        },
        Err(e) => Err(ActivationError::Flags(e)),
    }
}

} // verus!
