//! Getting the one listening socket a server runs on.
//!
//! With an address the server binds: a network stream socket where the
//! address is a socket address, a local stream socket at that path where it is
//! not. Without an address it takes the descriptor that a supervisor passed,
//! as a network stream socket first and as a local stream socket if that
//! fails. Whatever the way, the listener is put into non-blocking mode before
//! it is handed out, and a descriptor on which this fails is closed.
//!
//! The layer decides; a driver performs. Each `Step` says what the driver has
//! to do next and holds the state to hand the outcome to.

use crate::activation::{
    get_active_socket, spec_active_descriptor, ActivationCandidate, ActivationError,
};
use crate::address::{read_socket_addr, spec_socket_addr, SocketAddress};
use crate::descriptor::Descriptor;
use crate::error::IoError;
use crate::flags::{lemma_flags_for_noop, lemma_with_bit, BlockingMode, FlagError};
use crate::socket::{BoundListener, Kind, Listener, LocalListener, NetworkListener, Write};
use vstd::prelude::*;
use vstd::utf8::encode_utf8;

verus! {

/// Where to bind.
#[derive(Debug)]
pub enum Target {
    /// A network stream socket at a socket address.
    Network(SocketAddress),
    /// A local stream socket at a path.
    Local(String),
}

impl Target {
    /// The kind of listener that binding gives.
    pub open spec fn spec_kind(&self) -> Kind {
        match self {
            Target::Network(_) => Kind::NetworkStream,
            Target::Local(_) => Kind::LocalStream,
        }
    }
}

/// A descriptor that was just opened, as the driver observed it: its number,
/// and its status flags where they could be read.
#[derive(Clone, Copy, Debug)]
pub struct Observed {
    pub fd: i32,
    pub flags: Option<i32>,
}

/// Why the server has no listener.
#[derive(Debug)]
pub enum BootstrapError {
    /// Binding failed, for the reason that the operating system gave.
    Bind(IoError),
    /// No address was given, and the descriptors passed by a supervisor gave
    /// no listener either.
    Activation(ActivationError),
    /// The socket was bound but could not be put into non-blocking mode.
    Flags(FlagError),
}

/// The target that an address stands for: the socket address that it spells,
/// or else the address itself as a path.
pub open spec fn spec_is_target_of(target: Target, addr: Seq<char>) -> bool {
    match spec_socket_addr(encode_utf8(addr)) {
        Some(a) => target matches Target::Network(found) && found@ == a,
        None => target matches Target::Local(path) && path@ == addr,
    }
}

/// An observed descriptor put into non-blocking mode, or why it could not
/// be.
pub open spec fn spec_forced(observed: Observed, nonblock_bit: i32) -> Result<
    Descriptor,
    FlagError,
> {
    match observed.flags {
        None => Err(FlagError::FlagQueryError),
        Some(flags) => (Descriptor { fd: observed.fd, flags, nonblock_bit }).spec_with_mode(
            BlockingMode::NonBlocking,
        ),
    }
}

/// An observed descriptor that could be put into non-blocking mode is in
/// non-blocking mode afterwards.
pub proof fn lemma_forced_is_nonblocking(observed: Observed, nonblock_bit: i32)
    ensures
        spec_forced(observed, nonblock_bit) matches Ok(descriptor)
            ==> descriptor.spec_is_nonblocking() && descriptor.fd == observed.fd,
{
    if observed.flags is Some {
        lemma_with_bit(observed.flags.unwrap(), nonblock_bit);
    }
}

/// Waiting for the outcome of binding.
#[derive(Debug)]
pub struct Binding {
    target: Target,
    nonblock_bit: i32,
}

/// Waiting for the descriptors that the environment passed.
#[derive(Debug)]
pub struct Receiving {
    nonblock_bit: i32,
}

/// Waiting for the listener's status flags to be written.
#[derive(Debug)]
pub struct Writing {
    listener: BoundListener,
    activated: bool,
    retry: Option<Vec<ActivationCandidate>>,
    nonblock_bit: i32,
}

/// Waiting for a descriptor to be closed, on the way to a failure.
#[derive(Debug)]
pub struct Closing {
    fd: i32,
    error: BootstrapError,
}

/// What the driver has to do next.
///
/// No step holds or hands out a listener that is not in non-blocking mode:
/// see `Step::spec_listener_is_nonblocking`, which every transition ensures.
#[derive(Debug)]
pub enum Step {
    /// Bind to `Binding::target`, observe the new descriptor and call
    /// `Binding::bound`.
    Bind(Binding),
    /// Receive the descriptors passed by the environment, observe each and
    /// call `Receiving::received`.
    Receive(Receiving),
    /// Write `Writing::flags` as the status flags of the descriptor
    /// `Writing::fd` and call `Writing::written`.
    WriteFlags(Writing),
    /// Close the descriptor `Closing::fd` and call `Closing::closed`.
    Close(Closing),
    /// Nothing: the listener, or why there is none.
    Finished(Result<BoundListener, BootstrapError>),
}

impl Step {
    /// Whether the listener that the step holds, if it holds one, is in
    /// non-blocking mode.
    pub open spec fn spec_listener_is_nonblocking(&self) -> bool {
        match self {
            Step::WriteFlags(w) => w.spec_listener().descriptor().spec_is_nonblocking(),
            Step::Finished(Ok(listener)) => listener.descriptor().spec_is_nonblocking(),
            _ => true,
        }
    }
}

impl Binding {
    /// Where to bind.
    pub closed spec fn spec_target(&self) -> Target {
        self.target
    }

    /// The bit that marks non-blocking mode.
    pub closed spec fn spec_nonblock_bit(&self) -> i32 {
        self.nonblock_bit
    }

    /// Where to bind.
    pub fn target(&self) -> (t: &Target)
        ensures
            *t == self.spec_target(),
    {
        &self.target
    }
}

impl Receiving {
    /// The bit that marks non-blocking mode.
    pub closed spec fn spec_nonblock_bit(&self) -> i32 {
        self.nonblock_bit
    }
}

impl Writing {
    /// The listener that is handed out once the flags are written.
    pub closed spec fn spec_listener(&self) -> BoundListener {
        self.listener
    }

    /// Whether the listener came from the environment.
    pub closed spec fn spec_activated(&self) -> bool {
        self.activated
    }

    /// The descriptors to try again as a local stream socket, should the
    /// writing fail.
    pub closed spec fn spec_retry(&self) -> Option<Seq<ActivationCandidate>> {
        match self.retry {
            Some(received) => Some(received@),
            None => None,
        }
    }

    /// The bit that marks non-blocking mode.
    pub closed spec fn spec_nonblock_bit(&self) -> i32 {
        self.nonblock_bit
    }

    /// The descriptor to write to.
    pub fn fd(&self) -> (fd: i32)
        ensures
            fd == self.spec_listener().descriptor().fd,
    {
        self.listener.as_raw_fd()
    }

    /// The status flags to write.
    pub fn flags(&self) -> (flags: i32)
        ensures
            flags == self.spec_listener().descriptor().flags,
    {
        self.listener.status_flags()
    }
}

impl Closing {
    /// The descriptor to close.
    pub closed spec fn spec_fd(&self) -> i32 {
        self.fd
    }

    /// The failure that follows.
    pub closed spec fn spec_error(&self) -> BootstrapError {
        self.error
    }

    /// The descriptor to close.
    pub fn fd(&self) -> (fd: i32)
        ensures
            fd == self.spec_fd(),
    {
        self.fd
    }

    /// The descriptor is closed, or could not be: the failure is final.
    pub fn closed(self) -> (r: Step)
        ensures
            r == Step::Finished(Err(self.spec_error())),
            r.spec_listener_is_nonblocking(),
    {
        Step::Finished(Err(self.error))
    }
}

/// The listener of the given kind over a descriptor in non-blocking mode.
fn listener_of(kind: Kind, descriptor: Descriptor) -> (listener: BoundListener)
    requires
        descriptor.spec_is_nonblocking(),
    ensures
        listener.descriptor() == descriptor,
        listener.spec_kind() == kind,
{
    proof {
        lemma_flags_for_noop(BlockingMode::NonBlocking, descriptor.flags, descriptor.nonblock_bit);
    }
    match kind {
        Kind::NetworkStream => BoundListener::Network(NetworkListener::from_descriptor(descriptor)),
        Kind::LocalStream => BoundListener::Local(LocalListener::from_descriptor(descriptor)),
    }
}

/// What follows once the descriptors received are tried as a local stream
/// socket, which is the last thing tried: the flags of the listener are
/// written, or the first descriptor is closed and the failure of this attempt
/// reported. With no descriptor at all there is nothing to close.
pub open spec fn spec_last_attempt(
    step: Step,
    received: Seq<ActivationCandidate>,
    nonblock_bit: i32,
) -> bool {
    match spec_active_descriptor(received, nonblock_bit) {
        Ok(descriptor) => {
            &&& step matches Step::WriteFlags(w)
            &&& w.spec_listener().descriptor() == descriptor
            &&& w.spec_listener().spec_kind() == Kind::LocalStream
            &&& w.spec_activated()
            &&& w.spec_retry() is None
            &&& w.spec_nonblock_bit() == nonblock_bit
        },
        Err(e) => if received.len() == 0 {
            step == Step::Finished(Err(BootstrapError::Activation(e)))
        } else {
            &&& step matches Step::Close(c)
            &&& c.spec_fd() == received[0].fd
            &&& c.spec_error() == BootstrapError::Activation(e)
        },
    }
}

/// Tries the descriptors received as a local stream socket.
fn last_attempt(received: Vec<ActivationCandidate>, nonblock_bit: i32) -> (step: Step)
    ensures
        spec_last_attempt(step, received@, nonblock_bit),
        step.spec_listener_is_nonblocking(),
{
    match get_active_socket::<LocalListener>(&received, nonblock_bit) {
        Ok(listener) => Step::WriteFlags(
            Writing {
                listener: BoundListener::Local(listener),
                activated: true,
                retry: None,
                nonblock_bit,
            },
        ),
        Err(e) => {
            if received.len() == 0 {
                Step::Finished(Err(BootstrapError::Activation(e)))
            } else {
                Step::Close(Closing { fd: received[0].fd, error: BootstrapError::Activation(e) })
            }
        },
    }
}

/// The first step towards a listener, where `nonblock_bit` marks
/// non-blocking mode among the status flags of a descriptor.
///
/// With an address, binding is next: to the socket address that the address
/// spells, or else to the address as the path of a local socket. Without one,
/// receiving the descriptors that the environment passed is next.
pub fn bootstrap_with(addr: Option<&str>, nonblock_bit: i32) -> (step: Step)
    ensures
        match addr {
            Some(a) => {
                &&& step matches Step::Bind(b)
                &&& spec_is_target_of(b.spec_target(), a@)
                &&& b.spec_nonblock_bit() == nonblock_bit
            },
            None => step matches Step::Receive(r) && r.spec_nonblock_bit() == nonblock_bit,
        },
{
    match addr {
        Some(a) => {
            let target = match read_socket_addr(a.as_bytes()) {
                Some(found) => Target::Network(found),
                None => Target::Local(a.to_owned()),
            };
            Step::Bind(Binding { target, nonblock_bit })
        },
        None => Step::Receive(Receiving { nonblock_bit }),
    }
}

/// The first step towards a listener on this platform.
pub fn bootstrap(addr: Option<&str>) -> (step: Step)
    ensures
        match addr {
            Some(a) => step matches Step::Bind(b) && spec_is_target_of(b.spec_target(), a@),
            None => step is Receive,
        },
{
    bootstrap_with(addr, crate::flags::nonblock_bit())
}

impl Binding {
    /// Takes the outcome of binding. A failure to bind is final and carries
    /// the reason given. A descriptor that was bound is put into non-blocking
    /// mode: its flags are written next, or, where its status flags could not
    /// be read or interpreted, it is closed on the way to `FlagQueryError`.
    pub fn bound(self, outcome: Result<Observed, IoError>) -> (step: Step)
        ensures
            step.spec_listener_is_nonblocking(),
            match outcome {
                Err(e) => step == Step::Finished(Err(BootstrapError::Bind(e))),
                Ok(observed) => match spec_forced(observed, self.spec_nonblock_bit()) {
                    Ok(descriptor) => {
                        &&& step matches Step::WriteFlags(w)
                        &&& w.spec_listener().descriptor() == descriptor
                        &&& w.spec_listener().spec_kind() == self.spec_target().spec_kind()
                        &&& !w.spec_activated()
                        &&& w.spec_retry() is None
                        &&& w.spec_nonblock_bit() == self.spec_nonblock_bit()
                    },
                    Err(e) => {
                        &&& step matches Step::Close(c)
                        &&& c.spec_fd() == observed.fd
                        &&& c.spec_error() == BootstrapError::Flags(e)
                    },
                },
            },
    {
        let observed = match outcome {
            Ok(observed) => observed,
            Err(e) => {
                return Step::Finished(Err(BootstrapError::Bind(e)));
            },
        };
        let kind = match self.target {
            Target::Network(_) => Kind::NetworkStream,
            Target::Local(_) => Kind::LocalStream,
        };
        let forced = match observed.flags {
            Some(flags) => {
                proof {
                    lemma_with_bit(flags, self.nonblock_bit);
                }
                (Descriptor { fd: observed.fd, flags, nonblock_bit: self.nonblock_bit }).with_mode(
                    BlockingMode::NonBlocking,
                )
            },
            None => Err(FlagError::FlagQueryError),
        };
        match forced {
            Ok(descriptor) => Step::WriteFlags(
                Writing {
                    listener: listener_of(kind, descriptor),
                    activated: false,
                    retry: None,
                    nonblock_bit: self.nonblock_bit,
                },
            ),
            Err(e) => Step::Close(Closing { fd: observed.fd, error: BootstrapError::Flags(e) }),
        }
    }
}

impl Receiving {
    /// Takes the descriptors that the environment passed, in their order,
    /// each as it was observed; none where the process was not started with
    /// any. They are tried as a network stream socket first. Where that gives
    /// a listener, its flags are written next. Where it fails, they are tried
    /// as a local stream socket, and it is the failure of this second attempt
    /// that is reported.
    pub fn received(self, received: Vec<ActivationCandidate>) -> (step: Step)
        ensures
            step.spec_listener_is_nonblocking(),
            match spec_active_descriptor(received@, self.spec_nonblock_bit()) {
                Ok(descriptor) => {
                    &&& step matches Step::WriteFlags(w)
                    &&& w.spec_listener().descriptor() == descriptor
                    &&& w.spec_listener().spec_kind() == Kind::NetworkStream
                    &&& w.spec_activated()
                    &&& w.spec_retry() == Some(received@)
                    &&& w.spec_nonblock_bit() == self.spec_nonblock_bit()
                },
                Err(_) => spec_last_attempt(step, received@, self.spec_nonblock_bit()),
            },
    {
        match get_active_socket::<NetworkListener>(&received, self.nonblock_bit) {
            Ok(listener) => Step::WriteFlags(
                Writing {
                    listener: BoundListener::Network(listener),
                    activated: true,
                    retry: Some(received),
                    nonblock_bit: self.nonblock_bit,
                },
            ),
            Err(_) => last_attempt(received, self.nonblock_bit),
        }
    }
}

impl Writing {
    /// Takes the outcome of writing the status flags. Once they are written
    /// the listener is handed out. Where writing failed on a descriptor from
    /// the environment that was tried as a network stream socket, the
    /// descriptors are tried again as a local stream socket. Otherwise the
    /// descriptor is closed on the way to `FlagUpdateError`.
    pub fn written(self, outcome: Result<(), IoError>) -> (step: Step)
        ensures
            step.spec_listener_is_nonblocking(),
            match outcome {
                Ok(_) => step == Step::Finished(Ok(self.spec_listener())),
                Err(_) => match self.spec_retry() {
                    Some(received) => spec_last_attempt(step, received, self.spec_nonblock_bit()),
                    None => {
                        &&& step matches Step::Close(c)
                        &&& c.spec_fd() == self.spec_listener().descriptor().fd
                        &&& c.spec_error() == if self.spec_activated() {
                            BootstrapError::Activation(
                                ActivationError::Flags(FlagError::FlagUpdateError),
                            )
                        } else {
                            BootstrapError::Flags(FlagError::FlagUpdateError)
                        }
                    },
                },
            },
    {
        match outcome {
            Ok(_) => {
                let _ = self.listener.is_nonblocking();
                Step::Finished(Ok(self.listener))
            },
            Err(_) => match self.retry {
                Some(received) => last_attempt(received, self.nonblock_bit),
                None => {
                    let error = if self.activated {
                        BootstrapError::Activation(
                            ActivationError::Flags(FlagError::FlagUpdateError),
                        )
                    } else {
                        BootstrapError::Flags(FlagError::FlagUpdateError)
                    };
                    Step::Close(Closing { fd: self.listener.as_raw_fd(), error })
                },
            },
        }
    }
}

} // verus!
