//! What a connected peer and a listening socket must offer to be used without
//! regard to their kind, and the two kinds there are: network stream sockets
//! and local stream sockets.

use crate::address::IpAddress;
use crate::descriptor::Descriptor;
use crate::error::IoError;
use crate::flags::{
    interpreted_flags, lemma_with_bit, spec_with_bit, with_bit, BlockingMode, FlagError,
};
use crate::text::{ip_text, spec_ip_text};
use vstd::prelude::*;

verus! {

/// The two kinds of stream socket.
#[derive(Clone, Copy, Debug, PartialEq, Eq, Structural)]
pub enum Kind {
    NetworkStream,
    LocalStream,
}

/// Something written to through a descriptor, which it exposes.
pub trait Write {
    /// The descriptor behind the value.
    spec fn descriptor(&self) -> Descriptor;

    /// The number of the descriptor.
    fn as_raw_fd(&self) -> (fd: i32)
        ensures
            fd == self.descriptor().fd,
    ;

    /// The status flags that the descriptor is to have.
    fn status_flags(&self) -> (flags: i32)
        ensures
            flags == self.descriptor().flags,
    ;
}

/// Something written to without blocking: it can be handed to a poller.
pub trait NonBlockingWrite: Write {

}

impl<T: Write> NonBlockingWrite for T {

}

/// Something read from, which can say who is at the other end.
pub trait Read {
    /// The label of the peer's address.
    spec fn spec_peer_addr(&self) -> Seq<char>;

    /// The peer's address for people to read, or the empty string where it
    /// could not be found out. Never fails.
    fn peer_addr(&self) -> (label: String)
        ensures
            label@ == self.spec_peer_addr(),
    ;
}

/// Puts a descriptor into blocking mode.
pub trait SetBlocking: Write {
    /// Clears the non-blocking bit of the status flags and leaves every other
    /// bit as it was. Fails with `FlagQueryError`, and changes nothing, exactly
    /// when the status flags cannot be interpreted. A second call changes
    /// nothing more.
    fn set_blocking(&mut self) -> (r: Result<(), FlagError>)
        ensures
            r is Ok <==> interpreted_flags(old(self).descriptor().flags) is Some,
            r matches Err(e) ==> e == FlagError::FlagQueryError && final(self).descriptor() == old(
                self,
            ).descriptor(),
            r is Ok ==> Ok::<Descriptor, FlagError>(final(self).descriptor()) == old(
                self,
            ).descriptor().spec_with_mode(BlockingMode::Blocking),
    ;
}

/// Puts a descriptor into non-blocking mode.
pub trait SetNonBlocking: Sized {
    /// What comes back once the mode is set.
    type Fd;

    /// What `set_nonblocking` gives.
    spec fn spec_set_nonblocking(self) -> Result<Self::Fd, FlagError>;

    /// Sets the non-blocking bit of the status flags and leaves every other
    /// bit as it was.
    fn set_nonblocking(self) -> (r: Result<Self::Fd, FlagError>)
        ensures
            r == self.spec_set_nonblocking(),
    ;
}

/// A connected endpoint, whatever its kind.
pub trait Socket: Write + Read {

}

impl<S: Write + Read> Socket for S {

}

/// A connected endpoint that can be switched to blocking mode for a phase of
/// writing.
pub trait BlockingWrite: Socket + SetBlocking {

}

impl<T: Socket + SetBlocking> BlockingWrite for T {

}

impl Write for Descriptor {
    open spec fn descriptor(&self) -> Descriptor {
        *self
    }

    fn as_raw_fd(&self) -> (fd: i32) {
        self.fd
    }

    fn status_flags(&self) -> (flags: i32) {
        self.flags
    }
}

impl SetBlocking for Descriptor {
    fn set_blocking(&mut self) -> (r: Result<(), FlagError>) {
        match self.with_mode(BlockingMode::Blocking) {
            Ok(d) => {
                *self = d;
                Ok(())
            },
            Err(e) => Err(e),
        }
    }
}

impl SetNonBlocking for Descriptor {
    type Fd = Descriptor;

    open spec fn spec_set_nonblocking(self) -> Result<Descriptor, FlagError> {
        self.spec_with_mode(BlockingMode::NonBlocking)
    }

    fn set_nonblocking(self) -> (r: Result<Descriptor, FlagError>) {
        self.with_mode(BlockingMode::NonBlocking)
    }
}

/// What the operating system handed over with an accepted connection: the
/// number of its descriptor, the status flags read from it, and the peer's
/// address where it could be found out.
pub struct Accepted<A> {
    pub fd: i32,
    pub flags: i32,
    pub peer: Option<A>,
}

/// A socket in the listening state that hands out connections.
pub trait Listening: Write {
    /// The connections that the listener gives.
    type Connected: Socket + SetBlocking;

    /// How the peer of a connection is addressed.
    type PeerAddress;

    /// Takes what a non-blocking accept on the listener returned and makes a
    /// connection of it. A failure is handed on as it is, "would block"
    /// among them. A connection comes out in non-blocking mode: its status
    /// flags are those read, with the non-blocking bit set, and are to be
    /// written back where that changed them.
    fn accept(&self, outcome: Result<Accepted<Self::PeerAddress>, IoError>) -> (r: Result<
        Self::Connected,
        IoError,
    >)
        ensures
            outcome matches Err(e) ==> r == Err::<Self::Connected, IoError>(e),
            outcome matches Ok(a) ==> r is Ok && r.unwrap().descriptor() == (Descriptor {
                fd: a.fd,
                flags: spec_with_bit(a.flags, self.descriptor().nonblock_bit),
                nonblock_bit: self.descriptor().nonblock_bit,
            }),
    ;
}

/// A listener that can be made of a descriptor that is already listening.
pub trait Listener: Listening + Sized {
    /// The kind of socket that the listener is.
    spec fn spec_kind() -> Kind;

    /// Adopts a listening descriptor. The listener is in non-blocking mode:
    /// its status flags are those of the descriptor with the non-blocking bit
    /// set.
    fn from_descriptor(descriptor: Descriptor) -> (listener: Self)
        ensures
            listener.descriptor() == descriptor.spec_with_flags(
                spec_with_bit(descriptor.flags, descriptor.nonblock_bit),
            ),
            listener.descriptor().spec_is_nonblocking(),
    ;
}

/// The label of a network peer: its IP address as text, or nothing where the
/// address is not known.
pub open spec fn spec_network_label(peer: Option<IpAddress>) -> Seq<char> {
    match peer {
        Some(ip) => spec_ip_text(ip@),
        None => Seq::empty(),
    }
}

/// A connection accepted on a network stream socket.
#[derive(Debug)]
pub struct NetworkPeer {
    descriptor: Descriptor,
    peer: Option<IpAddress>,
}

impl NetworkPeer {
    /// The peer's IP address, where it is known.
    pub closed spec fn spec_peer(&self) -> Option<IpAddress> {
        self.peer
    }
}

impl Write for NetworkPeer {
    closed spec fn descriptor(&self) -> Descriptor {
        self.descriptor
    }

    fn as_raw_fd(&self) -> (fd: i32) {
        self.descriptor.fd
    }

    fn status_flags(&self) -> (flags: i32) {
        self.descriptor.flags
    }
}

impl Read for NetworkPeer {
    open spec fn spec_peer_addr(&self) -> Seq<char> {
        spec_network_label(self.spec_peer())
    }

    fn peer_addr(&self) -> (label: String) {
        match &self.peer {
            Some(ip) => ip_text(ip),
            None => String::new(),
        }
    }
}

impl SetBlocking for NetworkPeer {
    fn set_blocking(&mut self) -> (r: Result<(), FlagError>)
        ensures
            final(self).spec_peer() == old(self).spec_peer(),
    {
        self.descriptor.set_blocking()
    }
}

/// A network stream socket in the listening state. It is in non-blocking
/// mode from the moment it exists.
#[derive(Debug)]
pub struct NetworkListener {
    descriptor: Descriptor,
}

impl NetworkListener {
    #[verifier::type_invariant]
    spec fn nonblocking_by_construction(&self) -> bool {
        self.descriptor.spec_is_nonblocking()
    }

    /// Whether the listener is in non-blocking mode: always.
    pub fn is_nonblocking(&self) -> (r: bool)
        ensures
            r,
            self.descriptor().spec_is_nonblocking(),
    {
        proof {
            use_type_invariant(self);
        }
        self.descriptor.is_nonblocking()
    }
}

impl Write for NetworkListener {
    closed spec fn descriptor(&self) -> Descriptor {
        self.descriptor
    }

    fn as_raw_fd(&self) -> (fd: i32) {
        self.descriptor.fd
    }

    fn status_flags(&self) -> (flags: i32) {
        self.descriptor.flags
    }
}

impl Listening for NetworkListener {
    type Connected = NetworkPeer;

    type PeerAddress = IpAddress;

    fn accept(&self, outcome: Result<Accepted<IpAddress>, IoError>) -> (r: Result<
        NetworkPeer,
        IoError,
    >)
        ensures
            outcome matches Ok(a) ==> r.unwrap().spec_peer() == a.peer,
    {
        match outcome {
            Ok(a) => Ok(
                NetworkPeer {
                    descriptor: Descriptor {
                        fd: a.fd,
                        flags: with_bit(a.flags, self.descriptor.nonblock_bit),
                        nonblock_bit: self.descriptor.nonblock_bit,
                    },
                    peer: a.peer,
                },
            ),
            Err(e) => Err(e),
        }
    }
}

impl Listener for NetworkListener {
    open spec fn spec_kind() -> Kind {
        Kind::NetworkStream
    }

    fn from_descriptor(descriptor: Descriptor) -> (listener: NetworkListener) {
        proof {
            lemma_with_bit(descriptor.flags, descriptor.nonblock_bit);
        }
        NetworkListener {
            descriptor: Descriptor {
                fd: descriptor.fd,
                flags: with_bit(descriptor.flags, descriptor.nonblock_bit),
                nonblock_bit: descriptor.nonblock_bit,
            },
        }
    }
}

/// What `{:?}` prints of the path name of a local socket address, which is
/// an `Option` of a `std::path::Path`: `None` for an address without a name.
pub uninterp spec fn pathname_debug_text(pathname: Option<Seq<char>>) -> Seq<char>;

/// The path name as a sequence of characters.
pub open spec fn spec_pathname(pathname: Option<String>) -> Option<Seq<char>> {
    match pathname {
        Some(path) => Some(path@),
        None => None,
    }
}

/// Formats the path name of a local socket address with `{:?}`, as an
/// `Option` of a `std::path::Path`. The text depends on the path name alone.
#[verifier::external_body]
fn pathname_label(pathname: &Option<String>) -> (label: String)
    ensures
        label@ == pathname_debug_text(spec_pathname(*pathname)),
{
    format!("{:?}", pathname.as_deref().map(std::path::Path::new))
}

/// The label of a local peer: its path name as `{:?}` prints it, or nothing
/// where the address is not known.
pub open spec fn spec_local_label(peer: Option<Option<String>>) -> Seq<char> {
    match peer {
        Some(pathname) => pathname_debug_text(spec_pathname(pathname)),
        None => Seq::empty(),
    }
}

/// The label of a local peer, from what was found out of its address.
pub fn local_label(peer: &Option<Option<String>>) -> (label: String)
    ensures
        label@ == spec_local_label(*peer),
{
    match peer {
        Some(pathname) => pathname_label(pathname),
        None => String::new(),
    }
}

/// A connection accepted on a local stream socket.
#[derive(Debug)]
pub struct LocalPeer {
    descriptor: Descriptor,
    peer: Option<Option<String>>,
}

impl LocalPeer {
    /// The path name of the peer's address, where the address is known.
    pub closed spec fn spec_peer(&self) -> Option<Option<String>> {
        self.peer
    }
}

impl Write for LocalPeer {
    closed spec fn descriptor(&self) -> Descriptor {
        self.descriptor
    }

    fn as_raw_fd(&self) -> (fd: i32) {
        self.descriptor.fd
    }

    fn status_flags(&self) -> (flags: i32) {
        self.descriptor.flags
    }
}

impl Read for LocalPeer {
    open spec fn spec_peer_addr(&self) -> Seq<char> {
        spec_local_label(self.spec_peer())
    }

    fn peer_addr(&self) -> (label: String) {
        local_label(&self.peer)
    }
}

impl SetBlocking for LocalPeer {
    fn set_blocking(&mut self) -> (r: Result<(), FlagError>)
        ensures
            final(self).spec_peer() == old(self).spec_peer(),
    {
        self.descriptor.set_blocking()
    }
}

/// A local stream socket in the listening state. It is in non-blocking mode
/// from the moment it exists.
#[derive(Debug)]
pub struct LocalListener {
    descriptor: Descriptor,
}

impl LocalListener {
    #[verifier::type_invariant]
    spec fn nonblocking_by_construction(&self) -> bool {
        self.descriptor.spec_is_nonblocking()
    }

    /// Whether the listener is in non-blocking mode: always.
    pub fn is_nonblocking(&self) -> (r: bool)
        ensures
            r,
            self.descriptor().spec_is_nonblocking(),
    {
        proof {
            use_type_invariant(self);
        }
        self.descriptor.is_nonblocking()
    }
}

impl Write for LocalListener {
    closed spec fn descriptor(&self) -> Descriptor {
        self.descriptor
    }

    fn as_raw_fd(&self) -> (fd: i32) {
        self.descriptor.fd
    }

    fn status_flags(&self) -> (flags: i32) {
        self.descriptor.flags
    }
}

impl Listening for LocalListener {
    type Connected = LocalPeer;

    type PeerAddress = Option<String>;

    fn accept(&self, outcome: Result<Accepted<Option<String>>, IoError>) -> (r: Result<
        LocalPeer,
        IoError,
    >)
        ensures
            outcome matches Ok(a) ==> r.unwrap().spec_peer() == a.peer,
    {
        match outcome {
            Ok(a) => Ok(
                LocalPeer {
                    descriptor: Descriptor {
                        fd: a.fd,
                        flags: with_bit(a.flags, self.descriptor.nonblock_bit),
                        nonblock_bit: self.descriptor.nonblock_bit,
                    },
                    peer: a.peer,
                },
            ),
            Err(e) => Err(e),
        }
    }
}

impl Listener for LocalListener {
    open spec fn spec_kind() -> Kind {
        Kind::LocalStream
    }

    fn from_descriptor(descriptor: Descriptor) -> (listener: LocalListener) {
        proof {
            lemma_with_bit(descriptor.flags, descriptor.nonblock_bit);
        }
        LocalListener {
            descriptor: Descriptor {
                fd: descriptor.fd,
                flags: with_bit(descriptor.flags, descriptor.nonblock_bit),
                nonblock_bit: descriptor.nonblock_bit,
            },
        }
    }
}

/// A listener of either kind.
#[derive(Debug)]
pub enum BoundListener {
    Network(NetworkListener),
    Local(LocalListener),
}

impl BoundListener {
    /// The kind of socket that the listener is.
    pub open spec fn spec_kind(&self) -> Kind {
        match self {
            BoundListener::Network(_) => Kind::NetworkStream,
            BoundListener::Local(_) => Kind::LocalStream,
        }
    }

    /// The kind of socket that the listener is.
    pub fn kind(&self) -> (k: Kind)
        ensures
            k == self.spec_kind(),
    {
        match self {
            BoundListener::Network(_) => Kind::NetworkStream,
            BoundListener::Local(_) => Kind::LocalStream,
        }
    }

    /// Whether the listener is in non-blocking mode: always.
    pub fn is_nonblocking(&self) -> (r: bool)
        ensures
            r,
            self.descriptor().spec_is_nonblocking(),
    {
        match self {
            BoundListener::Network(listener) => listener.is_nonblocking(),
            BoundListener::Local(listener) => listener.is_nonblocking(),
        }
    }
}

impl Write for BoundListener {
    open spec fn descriptor(&self) -> Descriptor {
        match self {
            BoundListener::Network(listener) => listener.descriptor(),
            BoundListener::Local(listener) => listener.descriptor(),
        }
    }

    fn as_raw_fd(&self) -> (fd: i32) {
        match self {
            BoundListener::Network(listener) => listener.as_raw_fd(),
            BoundListener::Local(listener) => listener.as_raw_fd(),
        }
    }

    fn status_flags(&self) -> (flags: i32) {
        match self {
            BoundListener::Network(listener) => listener.status_flags(),
            BoundListener::Local(listener) => listener.status_flags(),
        }
    }
}

} // verus!
