use std::collections::VecDeque;

use platform2::forwarder::{Direction, DirectionState, ForwarderError, Interest, Work};
use platform2::rendezvous::{
    create_forwarder_session, launch_chunnel, launch_request, ConnectChunnelStatus, GuestArrival,
    CHUNNEL_CONNECT_TIMEOUT_SECS, DBUS_TIMEOUT_MS,
};
use platform2::sessions::{
    update_listening_ports, update_status, Error, ForwardRequest, ForwarderSessions,
    SessionUpdate, TcpForwardTarget, UpdateStatus, FIRST_FORWARDABLE_PORT,
};
use platform2::stream::{ReadOutcome, SocketKind, WriteOutcome};
use platform2::token::Token;
use platform2::vsock::SocketAddr;

fn target(port: u16, container: &str) -> TcpForwardTarget {
    TcpForwardTarget {
        port,
        vm_name: "termina".to_string(),
        container_name: container.to_string(),
        owner_id: "owner".to_string(),
        vsock_cid: 42,
    }
}

const PORT: u16 = 8080;

/// A table that listens on `PORT` for the guest with cid 42.
fn listening_table() -> ForwarderSessions {
    let mut table = ForwarderSessions::new();
    let mut queue = VecDeque::new();
    queue.push_back(target(PORT, "penguin"));
    table.process_update_queue(&mut queue, &vec![PORT]);
    table
}

fn guest() -> GuestArrival {
    GuestArrival::Connected(SocketAddr { cid: 42, port: 1 })
}

const NOTHING: Interest = Interest {
    read: false,
    write: false,
};

#[test]
fn new_table_is_empty() {
    let table = ForwarderSessions::new();
    assert_eq!(table.session_count(), 0);
    assert!(!table.is_listening(8080));
    assert!(!table.has_session(3));
}

#[test]
fn privileged_ports_are_ignored() {
    assert_eq!(FIRST_FORWARDABLE_PORT, 1024);
    let mut table = ForwarderSessions::new();
    let mut queue = VecDeque::new();
    queue.push_back(target(80, "penguin"));
    queue.push_back(target(1023, "penguin"));
    queue.push_back(target(1024, "penguin"));
    assert_eq!(table.ports_to_bind(&queue), vec![1024]);
    let retired = table.process_update_queue(&mut queue, &vec![80, 1023, 1024]);
    assert!(queue.is_empty());
    assert!(retired.is_empty());
    assert!(!table.is_listening(80));
    assert!(!table.is_listening(1023));
    assert!(table.is_listening(1024));
}

#[test]
fn update_adds_keeps_and_retires_listeners() {
    let mut table = ForwarderSessions::new();
    let mut queue = VecDeque::new();
    queue.push_back(target(8080, "first"));
    queue.push_back(target(9090, "second"));
    queue.push_back(target(8080, "duplicate"));
    assert_eq!(table.ports_to_bind(&queue), vec![8080, 9090]);
    let retired = table.process_update_queue(&mut queue, &vec![8080, 9090]);
    assert!(retired.is_empty());
    assert_eq!(
        table.forward_target(8080).unwrap().container_name,
        "first"
    );
    assert_eq!(
        table.forward_target(9090).unwrap().container_name,
        "second"
    );

    // The next update keeps 9090 (with its old target), adds 7070, whose
    // listeners could not be bound, and 6060, and no longer names 8080.
    let mut queue = VecDeque::new();
    queue.push_back(target(9090, "renamed"));
    queue.push_back(target(7070, "third"));
    queue.push_back(target(6060, "fourth"));
    assert_eq!(table.ports_to_bind(&queue), vec![7070, 6060]);
    let retired = table.process_update_queue(&mut queue, &vec![6060]);
    assert_eq!(retired.keys().cloned().collect::<Vec<u16>>(), vec![8080]);
    assert_eq!(retired[&8080].container_name, "first");
    assert!(!table.is_listening(8080));
    assert!(!table.is_listening(7070));
    assert!(table.is_listening(6060));
    assert_eq!(
        table.forward_target(9090).unwrap().container_name,
        "second"
    );
}

#[test]
fn empty_update_retires_everything() {
    let mut table = ForwarderSessions::new();
    let mut queue = VecDeque::new();
    queue.push_back(target(8080, "first"));
    table.process_update_queue(&mut queue, &vec![8080]);
    let retired = table.process_update_queue(&mut VecDeque::new(), &Vec::new());
    assert_eq!(retired.len(), 1);
    assert!(!table.is_listening(8080));
}

#[test]
fn connection_on_unknown_port_is_refused() {
    let table = ForwarderSessions::new();
    match table.forward_target(5000) {
        Err(Error::NoListenerForPort(5000)) => {}
        other => panic!("unexpected: {:?}", other),
    }
}

#[test]
fn event_for_unknown_session_is_refused() {
    let mut table = ForwarderSessions::new();
    match table.forward_from_local(7, ReadOutcome::Eof) {
        Err(Error::NoSessionForTag(7)) => {}
        other => panic!("unexpected: {:?}", other),
    }
    match table.on_write(7, Direction::LocalToRemote, WriteOutcome::Written(1)) {
        Err(Error::NoSessionForTag(7)) => {}
        other => panic!("unexpected: {:?}", other),
    }
    match table.session(7) {
        Err(Error::NoSessionForTag(7)) => {}
        other => panic!("unexpected: {:?}", other),
    }
}

#[test]
fn end_to_end_through_the_table() {
    let mut table = listening_table();
    table.accept_connection(PORT, 5, guest()).unwrap();
    assert!(table.has_session(5));
    assert_eq!(table.session_count(), 1);

    let update = table
        .forward_from_local(5, ReadOutcome::Data(b"hello".to_vec()))
        .unwrap();
    assert_eq!(
        update,
        SessionUpdate {
            removed: false,
            failure: None,
            local: Interest {
                read: true,
                write: false
            },
            remote: Interest {
                read: true,
                write: true
            },
        }
    );
    assert_eq!(
        table
            .session(5)
            .unwrap()
            .pending(Direction::LocalToRemote)
            .as_slice(),
        b"hello"
    );
    let update = table
        .on_write(5, Direction::LocalToRemote, WriteOutcome::Written(5))
        .unwrap();
    assert!(!update.remote.write);

    // The client closes its write side: the local socket is no longer read,
    // the session stays.
    let update = table.forward_from_local(5, ReadOutcome::Eof).unwrap();
    assert!(!update.removed);
    assert!(!update.local.read);
    assert!(update.remote.read);
    assert_eq!(
        table.session(5).unwrap().state(Direction::LocalToRemote),
        DirectionState::Closed
    );

    table
        .forward_from_remote(5, ReadOutcome::Data(b"world".to_vec()))
        .unwrap();
    assert_eq!(
        table
            .session(5)
            .unwrap()
            .pending(Direction::RemoteToLocal)
            .as_slice(),
        b"world"
    );
    table
        .on_write(5, Direction::RemoteToLocal, WriteOutcome::Written(5))
        .unwrap();

    // The remote side closes too: the session leaves the table.
    let update = table.forward_from_remote(5, ReadOutcome::Eof).unwrap();
    assert_eq!(
        update,
        SessionUpdate {
            removed: true,
            failure: None,
            local: NOTHING,
            remote: NOTHING,
        }
    );
    assert!(!table.has_session(5));
    assert_eq!(table.session_count(), 0);
}

#[test]
fn failure_in_one_session_leaves_the_other_alone() {
    let mut table = listening_table();
    table.accept_connection(PORT, 1, guest()).unwrap();
    table.accept_connection(PORT, 2, guest()).unwrap();

    // Session 2 has a transfer in flight.
    table
        .forward_from_local(2, ReadOutcome::Data(b"payload".to_vec()))
        .unwrap();

    // A hard read error on the local socket of session 1.
    let update = table.forward_from_local(1, ReadOutcome::Failed).unwrap();
    assert_eq!(
        update,
        SessionUpdate {
            removed: true,
            failure: Some(ForwarderError::ReadFailure(Direction::LocalToRemote)),
            local: NOTHING,
            remote: NOTHING,
        }
    );
    assert!(!table.has_session(1));
    assert!(table.has_session(2));
    assert_eq!(table.session_count(), 1);

    // Session 2 completes with every byte.
    assert_eq!(
        table
            .session(2)
            .unwrap()
            .pending(Direction::LocalToRemote)
            .as_slice(),
        b"payload"
    );
    table
        .on_write(2, Direction::LocalToRemote, WriteOutcome::Written(7))
        .unwrap();
    table.forward_from_local(2, ReadOutcome::Eof).unwrap();
    let update = table.forward_from_remote(2, ReadOutcome::Eof).unwrap();
    assert!(update.removed);
    assert_eq!(update.failure, None);
}

#[test]
fn write_failure_tears_session_down() {
    let mut table = listening_table();
    table.accept_connection(PORT, 9, guest()).unwrap();
    table
        .forward_from_remote(9, ReadOutcome::Data(b"x".to_vec()))
        .unwrap();
    let update = table
        .on_write(9, Direction::RemoteToLocal, WriteOutcome::Failed)
        .unwrap();
    assert!(update.removed);
    assert_eq!(
        update.failure,
        Some(ForwarderError::WriteFailure(Direction::RemoteToLocal))
    );
    assert!(!table.has_session(9));
}

#[test]
fn rendezvous_times_out() {
    assert_eq!(CHUNNEL_CONNECT_TIMEOUT_SECS, 10);
    assert_eq!(DBUS_TIMEOUT_MS, 30 * 1000);
    let mut table = listening_table();
    table.accept_connection(PORT, 1, guest()).unwrap();

    match table.accept_connection(PORT, 2, GuestArrival::TimedOut) {
        Err(Error::VsockAcceptTimeout) => {}
        other => panic!("unexpected: {:?}", other),
    }
    // Nothing changed: the listener is still there, the session that was
    // in the table goes on, and the next attempt can succeed.
    assert!(table.is_listening(PORT));
    assert!(!table.has_session(2));
    assert!(table.has_session(1));
    assert_eq!(table.session_count(), 1);
    table.accept_connection(PORT, 3, guest()).unwrap();
    assert!(table.has_session(3));
    assert_eq!(table.session_count(), 2);

    let t = table.forward_target(PORT).unwrap();
    match create_forwarder_session(GuestArrival::TimedOut, t) {
        Err(Error::VsockAcceptTimeout) => {}
        other => panic!("unexpected: {:?}", other),
    }
}

#[test]
fn accept_on_unknown_port_or_from_wrong_guest_changes_nothing() {
    let mut table = listening_table();
    match table.accept_connection(9999, 1, guest()) {
        Err(Error::NoListenerForPort(9999)) => {}
        other => panic!("unexpected: {:?}", other),
    }
    match table.accept_connection(
        PORT,
        1,
        GuestArrival::Connected(SocketAddr { cid: 41, port: 1 }),
    ) {
        Err(Error::IncorrectCid(41)) => {}
        other => panic!("unexpected: {:?}", other),
    }
    assert_eq!(table.session_count(), 0);
    assert!(table.is_listening(PORT));
}

#[test]
fn tokens_are_watched_as_the_table_stands() {
    let mut table = listening_table();
    let read_only = Interest {
        read: true,
        write: false,
    };
    assert_eq!(table.interest_of(Token::UpdatePorts), read_only);
    assert_eq!(table.interest_of(Token::Ipv4Listener(PORT)), read_only);
    assert_eq!(table.interest_of(Token::Ipv6Listener(PORT)), read_only);
    assert_eq!(table.interest_of(Token::Ipv4Listener(81)), NOTHING);
    assert_eq!(table.interest_of(Token::LocalSocket(4)), NOTHING);
    table.accept_connection(PORT, 4, guest()).unwrap();
    assert_eq!(table.interest_of(Token::LocalSocket(4)), read_only);
    assert_eq!(table.interest_of(Token::RemoteSocket(4)), read_only);
    table
        .forward_from_local(4, ReadOutcome::Data(b"x".to_vec()))
        .unwrap();
    assert_eq!(
        table.interest_of(Token::RemoteSocket(4)),
        Interest {
            read: true,
            write: true
        }
    );
    assert!(table.remove_session(4));
    assert!(!table.remove_session(4));
    assert_eq!(table.interest_of(Token::RemoteSocket(4)), NOTHING);
}

#[test]
fn rendezvous_checks_the_guest() {
    let t = target(8080, "penguin");
    match create_forwarder_session(
        GuestArrival::Connected(SocketAddr { cid: 43, port: 1 }),
        &t,
    ) {
        Err(Error::IncorrectCid(43)) => {}
        other => panic!("unexpected: {:?}", other),
    }
    let session = create_forwarder_session(
        GuestArrival::Connected(SocketAddr {
            cid: 42,
            port: 5000,
        }),
        &t,
    )
    .unwrap();
    assert_eq!(session.local_stream().kind(), SocketKind::Tcp);
    assert_eq!(session.remote_stream().kind(), SocketKind::Vsock);
    assert!(!session.is_shut_down());
}

#[test]
fn launch_request_names_the_target() {
    let t = target(8080, "penguin");
    let request = launch_request(4000, 8080, &t);
    assert_eq!(request.vm_name, "termina");
    assert_eq!(request.container_name, "penguin");
    assert_eq!(request.owner_id, "owner");
    assert_eq!(request.chunneld_port, 4000);
    assert_eq!(request.target_tcp4_port, 8080);
}

#[test]
fn launch_answer_decides() {
    assert!(launch_chunnel(ConnectChunnelStatus::Success, String::new()).is_ok());
    match launch_chunnel(ConnectChunnelStatus::Failed, "no such container".to_string()) {
        Err(Error::ConnectChunnelFailure(reason)) => assert_eq!(reason, "no such container"),
        other => panic!("unexpected: {:?}", other),
    }
    match launch_chunnel(ConnectChunnelStatus::Unknown, "?".to_string()) {
        Err(Error::ConnectChunnelFailure(reason)) => assert_eq!(reason, "?"),
        other => panic!("unexpected: {:?}", other),
    }
}

#[test]
fn error_messages() {
    assert_eq!(
        Error::ConnectChunnelFailure("boom".to_string()).message(),
        "failed to connect chunnel: boom"
    );
    assert_eq!(
        Error::IncorrectCid(4294967295).message(),
        "chunnel connection from unexpected cid 4294967295"
    );
    assert_eq!(
        Error::IncorrectCid(0).message(),
        "chunnel connection from unexpected cid 0"
    );
    assert_eq!(
        Error::NoListenerForPort(8080).message(),
        "could not find listener for port: 8080"
    );
    assert_eq!(
        Error::NoSessionForTag(255).message(),
        "could not find session for tag: ff"
    );
    assert_eq!(
        Error::NoSessionForTag(0x1a2b3c).message(),
        "could not find session for tag: 1a2b3c"
    );
    assert_eq!(
        Error::VsockAcceptTimeout.message(),
        "timed out waiting for vsock connection"
    );
}

#[test]
fn control_plane_update_is_queued_in_order() {
    let mut req = VecDeque::new();
    req.push_back(ForwardRequest {
        port: 8080,
        vm_name: "termina".to_string(),
        container_name: "penguin".to_string(),
        owner_id: "me".to_string(),
        vsock_cid: 7,
    });
    req.push_back(ForwardRequest {
        port: 65536 + 9090,
        vm_name: "termina".to_string(),
        container_name: "other".to_string(),
        owner_id: "me".to_string(),
        vsock_cid: 8,
    });
    let mut queue = VecDeque::new();
    queue.push_back(target(1234, "old"));
    update_listening_ports(&mut req, &mut queue);
    assert!(req.is_empty());
    assert_eq!(queue.len(), 3);
    assert_eq!(queue[0].port, 1234);
    assert_eq!(queue[1].port, 8080);
    assert_eq!(queue[1].container_name, "penguin");
    assert_eq!(queue[1].vsock_cid, 7);
    // Only the low sixteen bits of the port count.
    assert_eq!(queue[2].port, 9090);
    assert_eq!(queue[2].owner_id, "me");
    assert_eq!(update_status(true), UpdateStatus::Success);
    assert_eq!(update_status(false), UpdateStatus::Failed);
}

#[test]
fn work_through_the_table() {
    let mut table = listening_table();
    assert_eq!(
        table.work(6, Direction::LocalToRemote, true, false),
        Work::Wait
    );
    table.accept_connection(PORT, 6, guest()).unwrap();
    assert_eq!(
        table.work(6, Direction::LocalToRemote, true, false),
        Work::Read(8192)
    );
    table
        .forward_from_local(6, ReadOutcome::Data(b"x".to_vec()))
        .unwrap();
    assert_eq!(
        table.work(6, Direction::LocalToRemote, false, false),
        Work::Write
    );
    assert_eq!(
        table.work(6, Direction::LocalToRemote, false, true),
        Work::Wait
    );
    assert_eq!(
        table.work(6, Direction::RemoteToLocal, false, false),
        Work::Wait
    );
}
