use transport::activation::{ActivationCandidate, ActivationError, DescriptorClass};
use transport::address::IpAddress;
use transport::bootstrap::{bootstrap, bootstrap_with, BootstrapError, Observed, Step, Target};
use transport::error::{ErrorKind, IoError};
use transport::flags::{nonblock_bit, FlagError};
use transport::socket::{Accepted, BoundListener, Kind, Listening, Read, Write};

const BIT: i32 = 0o4000;

fn bind_step(addr: &str) -> transport::bootstrap::Binding {
    match bootstrap_with(Some(addr), BIT) {
        Step::Bind(binding) => binding,
        other => panic!("expected to bind, got {:?}", other),
    }
}

fn receive_step() -> transport::bootstrap::Receiving {
    match bootstrap_with(None, BIT) {
        Step::Receive(receiving) => receiving,
        other => panic!("expected to receive, got {:?}", other),
    }
}

fn finish(step: Step) -> Result<BoundListener, BootstrapError> {
    match step {
        Step::Finished(outcome) => outcome,
        other => panic!("expected to be finished, got {:?}", other),
    }
}

#[test]
fn a_socket_address_is_bound_as_a_network_socket() {
    let binding = bind_step("127.0.0.1:0");
    match binding.target() {
        Target::Network(a) => {
            assert!(matches!(a.ip, IpAddress::V4([127, 0, 0, 1])));
            assert_eq!(a.port, 0);
            assert_eq!(a.scope_id, 0);
        }
        other => panic!("expected a network target, got {:?}", other),
    }
    let writing = match binding.bound(Ok(Observed { fd: 5, flags: Some(2) })) {
        Step::WriteFlags(writing) => writing,
        other => panic!("expected to write flags, got {:?}", other),
    };
    assert_eq!(writing.fd(), 5);
    assert_eq!(writing.flags(), 2 | BIT);
    let listener = finish(writing.written(Ok(()))).unwrap();
    assert_eq!(listener.kind(), Kind::NetworkStream);
    assert_eq!(listener.as_raw_fd(), 5);
    assert!(listener.is_nonblocking());

    let network = match listener {
        BoundListener::Network(network) => network,
        other => panic!("expected a network listener, got {:?}", other),
    };
    let accepted = Accepted { fd: 6, flags: 2, peer: Some(IpAddress::V4([127, 0, 0, 1])) };
    let peer = network.accept(Ok(accepted)).unwrap();
    assert_eq!(peer.peer_addr(), "127.0.0.1");
}

#[test]
fn anything_else_is_bound_as_a_local_socket() {
    let binding = bind_step("/tmp/test.sock");
    match binding.target() {
        Target::Local(path) => assert_eq!(path, "/tmp/test.sock"),
        other => panic!("expected a local target, got {:?}", other),
    }
    let writing = match binding.bound(Ok(Observed { fd: 5, flags: Some(2 | BIT) })) {
        Step::WriteFlags(writing) => writing,
        other => panic!("expected to write flags, got {:?}", other),
    };
    assert_eq!(writing.flags(), 2 | BIT);
    let listener = finish(writing.written(Ok(()))).unwrap();
    assert_eq!(listener.kind(), Kind::LocalStream);
    assert!(listener.is_nonblocking());

    // the path is taken now: binding to it again fails, and that is final
    let again = bind_step("/tmp/test.sock");
    let in_use = IoError::new(ErrorKind::Other, "Address already in use");
    match finish(again.bound(Err(in_use))) {
        Err(BootstrapError::Bind(e)) => assert_eq!(e.reason(), "Address already in use"),
        other => panic!("expected a bind error, got {:?}", other),
    }
}

#[test]
fn a_failed_bind_of_a_socket_address_is_final() {
    let binding = bind_step("10.255.255.1:80");
    let refused = IoError::new(ErrorKind::Other, "Cannot assign requested address");
    match finish(binding.bound(Err(refused))) {
        Err(BootstrapError::Bind(e)) => {
            assert_eq!(e.reason(), "Cannot assign requested address")
        }
        other => panic!("expected a bind error, got {:?}", other),
    }
}

#[test]
fn a_bound_descriptor_that_cannot_be_made_nonblocking_is_closed() {
    for flags in [None, Some(1 << 30)] {
        let closing = match bind_step("127.0.0.1:0").bound(Ok(Observed { fd: 5, flags })) {
            Step::Close(closing) => closing,
            other => panic!("expected to close, got {:?}", other),
        };
        assert_eq!(closing.fd(), 5);
        match finish(closing.closed()) {
            Err(BootstrapError::Flags(e)) => assert_eq!(e, FlagError::FlagQueryError),
            other => panic!("expected a flag error, got {:?}", other),
        }
    }
    let writing = match bind_step("/run/x.sock").bound(Ok(Observed { fd: 7, flags: Some(0) })) {
        Step::WriteFlags(writing) => writing,
        other => panic!("expected to write flags, got {:?}", other),
    };
    let closing = match writing.written(Err(IoError::new(ErrorKind::Other, "bad descriptor"))) {
        Step::Close(closing) => closing,
        other => panic!("expected to close, got {:?}", other),
    };
    assert_eq!(closing.fd(), 7);
    match finish(closing.closed()) {
        Err(BootstrapError::Flags(e)) => assert_eq!(e, FlagError::FlagUpdateError),
        other => panic!("expected a flag error, got {:?}", other),
    }
}

#[test]
fn without_address_and_without_descriptors_there_is_no_listener() {
    match finish(receive_step().received(vec![])) {
        Err(BootstrapError::Activation(e)) => assert_eq!(e, ActivationError::NoDescriptors),
        other => panic!("expected an activation error, got {:?}", other),
    }
    assert!(matches!(bootstrap(None), Step::Receive(_)));
    assert!(matches!(bootstrap(Some("127.0.0.1:0")), Step::Bind(_)));
}

#[test]
fn a_plain_file_from_the_environment_is_refused_and_closed() {
    let received =
        vec![ActivationCandidate { fd: 3, class: DescriptorClass::Other, flags: Some(2) }];
    let closing = match receive_step().received(received) {
        Step::Close(closing) => closing,
        other => panic!("expected to close, got {:?}", other),
    };
    assert_eq!(closing.fd(), 3);
    match finish(closing.closed()) {
        Err(BootstrapError::Activation(e)) => {
            assert_eq!(e, ActivationError::UnsupportedDescriptorKind)
        }
        other => panic!("expected an activation error, got {:?}", other),
    }
}

#[test]
fn a_socket_from_the_environment_is_tried_as_a_network_socket_first() {
    let received =
        vec![ActivationCandidate { fd: 3, class: DescriptorClass::LocalSocket, flags: Some(2) }];
    let writing = match receive_step().received(received) {
        Step::WriteFlags(writing) => writing,
        other => panic!("expected to write flags, got {:?}", other),
    };
    assert_eq!(writing.fd(), 3);
    assert_eq!(writing.flags(), 2 | BIT);
    let listener = finish(writing.written(Ok(()))).unwrap();
    assert_eq!(listener.kind(), Kind::NetworkStream);
    assert!(listener.is_nonblocking());
    assert_eq!(listener.as_raw_fd(), 3);
}

#[test]
fn when_the_network_attempt_fails_the_local_attempt_decides() {
    let received =
        vec![ActivationCandidate { fd: 3, class: DescriptorClass::LocalSocket, flags: Some(2) }];
    let first = match receive_step().received(received) {
        Step::WriteFlags(writing) => writing,
        other => panic!("expected to write flags, got {:?}", other),
    };
    let failed = IoError::new(ErrorKind::Other, "interrupted");
    let second = match first.written(Err(failed)) {
        Step::WriteFlags(writing) => writing,
        other => panic!("expected to write flags again, got {:?}", other),
    };
    assert_eq!(second.fd(), 3);
    let listener = finish(second.written(Ok(()))).unwrap();
    assert_eq!(listener.kind(), Kind::LocalStream);

    let received =
        vec![ActivationCandidate { fd: 3, class: DescriptorClass::LocalSocket, flags: Some(2) }];
    let first = match receive_step().received(received) {
        Step::WriteFlags(writing) => writing,
        other => panic!("expected to write flags, got {:?}", other),
    };
    let second = match first.written(Err(IoError::new(ErrorKind::Other, "interrupted"))) {
        Step::WriteFlags(writing) => writing,
        other => panic!("expected to write flags again, got {:?}", other),
    };
    let closing = match second.written(Err(IoError::new(ErrorKind::Other, "interrupted"))) {
        Step::Close(closing) => closing,
        other => panic!("expected to close, got {:?}", other),
    };
    assert_eq!(closing.fd(), 3);
    match finish(closing.closed()) {
        Err(BootstrapError::Activation(e)) => {
            assert_eq!(e, ActivationError::Flags(FlagError::FlagUpdateError))
        }
        other => panic!("expected an activation error, got {:?}", other),
    }
}

#[test]
fn the_platform_bit_is_used_where_none_is_given() {
    let binding = match bootstrap(Some("/tmp/a.sock")) {
        Step::Bind(binding) => binding,
        other => panic!("expected to bind, got {:?}", other),
    };
    let writing = match binding.bound(Ok(Observed { fd: 5, flags: Some(2) })) {
        Step::WriteFlags(writing) => writing,
        other => panic!("expected to write flags, got {:?}", other),
    };
    assert_eq!(writing.flags(), 2 | nonblock_bit());
}
