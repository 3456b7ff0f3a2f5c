use transport::address::IpAddress;
use transport::descriptor::Descriptor;
use transport::error::{would_block, ErrorKind, IoError};
use transport::flags::{nonblock_bit, FlagError};
use transport::socket::{
    local_label, Accepted, BoundListener, Kind, Listener, Listening, LocalListener,
    NetworkListener, Read, SetBlocking, SetNonBlocking, Write,
};

fn listening(fd: i32) -> Descriptor {
    Descriptor::new(fd, 2).set_nonblocking().unwrap()
}

#[test]
fn a_listener_is_nonblocking_from_the_start() {
    let network = NetworkListener::from_descriptor(listening(3));
    assert!(network.is_nonblocking());
    assert_eq!(network.as_raw_fd(), 3);
    let local = LocalListener::from_descriptor(listening(4));
    assert!(local.is_nonblocking());
    assert_eq!(local.as_raw_fd(), 4);
    let bound = BoundListener::Local(local);
    assert!(bound.is_nonblocking());
    assert_eq!(bound.kind(), Kind::LocalStream);
    assert_eq!(bound.as_raw_fd(), 4);
    assert_eq!(bound.status_flags(), 2 | nonblock_bit());
    assert_eq!(BoundListener::Network(network).kind(), Kind::NetworkStream);
}

#[test]
fn a_listener_forces_its_descriptor_into_nonblocking_mode() {
    let blocking = Descriptor { fd: 3, flags: 2, nonblock_bit: 0x800 };
    assert!(!blocking.is_nonblocking());
    let network = NetworkListener::from_descriptor(blocking);
    assert!(network.is_nonblocking());
    let bound = BoundListener::Network(network);
    assert_eq!(bound.status_flags(), 0x802);
    assert_eq!(bound.as_raw_fd(), 3);
    let local = BoundListener::Local(LocalListener::from_descriptor(blocking));
    assert!(local.is_nonblocking());
    assert_eq!(local.status_flags(), 0x802);
}

#[test]
fn accept_hands_a_failure_on() {
    let listener = NetworkListener::from_descriptor(listening(3));
    let nothing_yet = listener.accept(Err(IoError::new(ErrorKind::WouldBlock, "try again")));
    let e = nothing_yet.unwrap_err();
    assert!(would_block(&e));
    assert_eq!(e.reason(), "try again");
    let broken = listener.accept(Err(IoError::new(ErrorKind::Other, "too many open files")));
    let e = broken.unwrap_err();
    assert!(!would_block(&e));
    assert_eq!(e.reason(), "too many open files");
}

#[test]
fn an_accepted_network_peer_is_nonblocking_and_labelled_by_its_ip() {
    let listener = NetworkListener::from_descriptor(listening(3));
    let accepted = Accepted { fd: 8, flags: 2, peer: Some(IpAddress::V4([127, 0, 0, 1])) };
    let mut peer = listener.accept(Ok(accepted)).unwrap();
    assert_eq!(peer.as_raw_fd(), 8);
    assert_eq!(peer.peer_addr(), "127.0.0.1");
    assert_eq!(peer.status_flags(), 2 | nonblock_bit());
    assert_eq!(peer.set_blocking(), Ok(()));
    assert_eq!(peer.status_flags(), 2);
    assert_eq!(peer.set_blocking(), Ok(()));
    assert_eq!(peer.status_flags(), 2);
    assert_eq!(peer.peer_addr(), "127.0.0.1");
    assert_eq!(peer.as_raw_fd(), 8);

    let v6 = Accepted { fd: 9, flags: 2, peer: Some(IpAddress::V6([0, 0, 0, 0, 0, 0, 0, 1])) };
    assert_eq!(listener.accept(Ok(v6)).unwrap().peer_addr(), "::1");
    let unknown = Accepted { fd: 10, flags: 2, peer: None };
    assert_eq!(listener.accept(Ok(unknown)).unwrap().peer_addr(), "");
}

#[test]
fn a_peer_with_unknown_flags_cannot_change_mode() {
    let listener = LocalListener::from_descriptor(listening(3));
    let accepted = Accepted { fd: 8, flags: 1 << 30, peer: None };
    let mut peer = listener.accept(Ok(accepted)).unwrap();
    assert_eq!(peer.set_blocking(), Err(FlagError::FlagQueryError));
    assert_eq!(peer.as_raw_fd(), 8);
}

#[test]
fn an_accepted_local_peer_is_labelled_by_its_path_name() {
    let listener = LocalListener::from_descriptor(listening(3));
    let named =
        Accepted { fd: 8, flags: 2, peer: Some(Some(String::from("/tmp/client.sock"))) };
    let peer = listener.accept(Ok(named)).unwrap();
    assert_eq!(peer.as_raw_fd(), 8);
    assert_eq!(peer.peer_addr(), "Some(\"/tmp/client.sock\")");
    let unnamed = Accepted { fd: 9, flags: 2, peer: Some(None) };
    assert_eq!(listener.accept(Ok(unnamed)).unwrap().peer_addr(), "None");
    let unknown = Accepted { fd: 10, flags: 2, peer: None };
    assert_eq!(listener.accept(Ok(unknown)).unwrap().peer_addr(), "");
    assert_eq!(local_label(&Some(Some(String::from("a\"b")))), "Some(\"a\\\"b\")");
}
