use platform2::forwarder::{
    Direction, DirectionState, ForwarderError, ForwarderSession, Interest, Work,
    DEFAULT_CHUNK_SIZE,
};
use platform2::stream::{ReadOutcome, Side, SocketKind, StreamSocket, WriteOutcome};

fn session() -> ForwarderSession {
    ForwarderSession::new(
        StreamSocket::new(SocketKind::Tcp),
        StreamSocket::new(SocketKind::Vsock),
    )
}

fn small_session(chunk: usize) -> ForwarderSession {
    ForwarderSession::with_chunk_size(
        StreamSocket::new(SocketKind::Tcp),
        StreamSocket::new(SocketKind::Vsock),
        chunk,
    )
}

/// Hands the destination at most `step` bytes per write until the buffer of
/// `direction` is empty; returns what the destination received.
fn drain(session: &mut ForwarderSession, direction: Direction, step: usize) -> Vec<u8> {
    let mut received = Vec::new();
    while session.wants_write(direction) {
        let pending = session.pending(direction).clone();
        let n = step.min(pending.len());
        received.extend_from_slice(&pending[..n]);
        session
            .on_write(direction, WriteOutcome::Written(n))
            .unwrap();
    }
    received
}

#[test]
fn new_session_is_open_both_ways() {
    let s = session();
    assert_eq!(s.state(Direction::LocalToRemote), DirectionState::Open);
    assert_eq!(s.state(Direction::RemoteToLocal), DirectionState::Open);
    assert!(!s.is_shut_down());
    assert_eq!(s.chunk_size(), DEFAULT_CHUNK_SIZE);
    assert_eq!(s.chunk_size(), 8192);
    assert_eq!(s.local_stream().kind(), SocketKind::Tcp);
    assert_eq!(s.remote_stream().kind(), SocketKind::Vsock);
    assert!(s.local_stream().can_read() && s.local_stream().can_write());
    assert!(s.remote_stream().can_read() && s.remote_stream().can_write());
    assert_eq!(s.read_budget(Direction::LocalToRemote), 8192);
    assert_eq!(
        s.interest(Side::Local),
        Interest {
            read: true,
            write: false
        }
    );
    assert_eq!(
        s.interest(Side::Remote),
        Interest {
            read: true,
            write: false
        }
    );
}

#[test]
fn end_to_end_hello_world() {
    let mut s = session();

    // The client writes "hello"; the remote side receives it.
    assert_eq!(
        s.forward_from_local(ReadOutcome::Data(b"hello".to_vec())),
        Ok(false)
    );
    assert_eq!(s.pending(Direction::LocalToRemote).as_slice(), b"hello");
    assert_eq!(s.flush_to_remote(WriteOutcome::Written(5)), Ok(false));
    assert!(s.pending(Direction::LocalToRemote).is_empty());

    // The client closes its write side.
    assert_eq!(s.forward_from_local(ReadOutcome::Eof), Ok(true));
    assert_eq!(s.state(Direction::LocalToRemote), DirectionState::Closed);
    assert!(!s.remote_stream().can_write());
    assert!(!s.is_shut_down());

    // The other direction still relays.
    assert_eq!(s.state(Direction::RemoteToLocal), DirectionState::Open);
    assert_eq!(
        s.forward_from_remote(ReadOutcome::Data(b"world".to_vec())),
        Ok(false)
    );
    assert_eq!(s.pending(Direction::RemoteToLocal).as_slice(), b"world");
    assert_eq!(s.flush_to_local(WriteOutcome::Written(5)), Ok(false));

    // The remote side closes too.
    assert_eq!(s.forward_from_remote(ReadOutcome::Eof), Ok(true));
    assert!(!s.local_stream().can_write());
    assert!(s.is_shut_down());
}

#[test]
fn bytes_arrive_in_order_local_to_remote() {
    let mut s = small_session(4);
    let mut sent = Vec::new();
    let mut received = Vec::new();
    for chunk in [&b"abcd"[..], &b"ef"[..], &b"ghi"[..]] {
        assert_eq!(
            s.forward_from_local(ReadOutcome::Data(chunk.to_vec())),
            Ok(false)
        );
        sent.extend_from_slice(chunk);
        received.extend(drain(&mut s, Direction::LocalToRemote, 3));
    }
    assert_eq!(s.forward_from_local(ReadOutcome::Eof), Ok(true));
    assert_eq!(sent, received);
    assert_eq!(received, b"abcdefghi");
    assert_eq!(s.state(Direction::LocalToRemote), DirectionState::Closed);
}

#[test]
fn bytes_arrive_in_order_remote_to_local() {
    let mut s = small_session(4);
    let mut received = Vec::new();
    for chunk in [&b"abcd"[..], &b"ef"[..], &b"ghi"[..]] {
        assert_eq!(
            s.forward_from_remote(ReadOutcome::Data(chunk.to_vec())),
            Ok(false)
        );
        received.extend(drain(&mut s, Direction::RemoteToLocal, 3));
    }
    assert_eq!(s.forward_from_remote(ReadOutcome::Eof), Ok(true));
    assert_eq!(received, b"abcdefghi");
    assert_eq!(s.state(Direction::RemoteToLocal), DirectionState::Closed);
    assert_eq!(s.state(Direction::LocalToRemote), DirectionState::Open);
}

#[test]
fn half_close_keeps_buffered_bytes_of_other_direction() {
    let mut s = session();
    assert_eq!(
        s.forward_from_remote(ReadOutcome::Data(b"in flight".to_vec())),
        Ok(false)
    );
    // The local peer ends its stream while bytes for it are still buffered.
    assert_eq!(s.forward_from_local(ReadOutcome::Eof), Ok(true));
    assert_eq!(s.pending(Direction::RemoteToLocal).as_slice(), b"in flight");
    assert_eq!(s.state(Direction::RemoteToLocal), DirectionState::Open);
    assert!(!s.is_shut_down());
    assert_eq!(drain(&mut s, Direction::RemoteToLocal, 4), b"in flight");
    assert!(!s.is_shut_down());
    assert_eq!(s.forward_from_remote(ReadOutcome::Eof), Ok(true));
    assert!(s.is_shut_down());
}

#[test]
fn end_of_stream_with_pending_bytes_drains_first() {
    let mut s = session();
    s.forward_from_local(ReadOutcome::Data(b"abc".to_vec()))
        .unwrap();
    assert_eq!(s.forward_from_local(ReadOutcome::Eof), Ok(true));
    assert_eq!(s.state(Direction::LocalToRemote), DirectionState::Draining);
    // The destination's write half stays in use until the buffer is empty.
    assert!(s.remote_stream().can_write());
    assert_eq!(s.read_budget(Direction::LocalToRemote), 0);
    assert!(!s.wants_read(Direction::LocalToRemote));
    assert_eq!(s.flush_to_remote(WriteOutcome::Written(2)), Ok(false));
    assert_eq!(s.state(Direction::LocalToRemote), DirectionState::Draining);
    assert_eq!(s.pending(Direction::LocalToRemote).as_slice(), b"c");
    assert_eq!(s.flush_to_remote(WriteOutcome::Written(1)), Ok(true));
    assert_eq!(s.state(Direction::LocalToRemote), DirectionState::Closed);
    assert!(!s.remote_stream().can_write());
}

#[test]
fn empty_data_is_end_of_stream() {
    let mut s = session();
    assert_eq!(s.forward_from_local(ReadOutcome::Data(Vec::new())), Ok(true));
    assert_eq!(s.state(Direction::LocalToRemote), DirectionState::Closed);
}

#[test]
fn would_block_changes_nothing() {
    let mut s = session();
    s.forward_from_local(ReadOutcome::Data(b"xy".to_vec()))
        .unwrap();
    assert_eq!(s.forward_from_local(ReadOutcome::WouldBlock), Ok(false));
    assert_eq!(s.flush_to_remote(WriteOutcome::WouldBlock), Ok(false));
    assert_eq!(s.flush_to_remote(WriteOutcome::Written(0)), Ok(false));
    assert_eq!(s.pending(Direction::LocalToRemote).as_slice(), b"xy");
    assert_eq!(s.state(Direction::LocalToRemote), DirectionState::Open);
    assert!(s.wants_write(Direction::LocalToRemote));
    assert_eq!(
        s.interest(Side::Remote),
        Interest {
            read: true,
            write: true
        }
    );
}

#[test]
fn partial_writes_deliver_everything() {
    let mut s = small_session(16);
    let data: Vec<u8> = (0u8..16).collect();
    s.forward_from_local(ReadOutcome::Data(data.clone()))
        .unwrap();
    // A full chunk is buffered: no more reads are wanted until it drains.
    assert_eq!(s.read_budget(Direction::LocalToRemote), 0);
    let mut received = Vec::new();
    let mut writes = 0;
    while s.wants_write(Direction::LocalToRemote) {
        received.push(s.pending(Direction::LocalToRemote)[0]);
        assert_eq!(s.flush_to_remote(WriteOutcome::Written(1)), Ok(false));
        writes += 1;
    }
    assert_eq!(writes, 16);
    assert_eq!(received, data);
    assert_eq!(s.read_budget(Direction::LocalToRemote), 16);
}

#[test]
fn written_count_is_clamped_to_the_buffer() {
    let mut s = session();
    s.forward_from_local(ReadOutcome::Data(b"abc".to_vec()))
        .unwrap();
    assert_eq!(s.flush_to_remote(WriteOutcome::Written(10)), Ok(false));
    assert!(s.pending(Direction::LocalToRemote).is_empty());
}

#[test]
fn buffer_stays_within_two_chunks() {
    let mut s = small_session(4);
    let mut largest = 0;
    for round in 0..10 {
        let budget = s.read_budget(Direction::LocalToRemote);
        if budget > 0 {
            s.forward_from_local(ReadOutcome::Data(vec![round as u8; budget]))
                .unwrap();
        }
        largest = largest.max(s.pending(Direction::LocalToRemote).len());
        s.flush_to_remote(WriteOutcome::Written(1)).unwrap();
    }
    assert!(largest <= 8);
    assert_eq!(largest, 7);
}

#[test]
fn read_failure_closes_direction_and_destination() {
    let mut s = session();
    s.forward_from_local(ReadOutcome::Data(b"lost".to_vec()))
        .unwrap();
    assert_eq!(
        s.forward_from_local(ReadOutcome::Failed),
        Err(ForwarderError::ReadFailure(Direction::LocalToRemote))
    );
    assert_eq!(s.state(Direction::LocalToRemote), DirectionState::Closed);
    assert!(s.pending(Direction::LocalToRemote).is_empty());
    assert!(!s.remote_stream().can_write());
    assert!(s.local_stream().can_read());
    // The other direction is untouched.
    assert_eq!(s.state(Direction::RemoteToLocal), DirectionState::Open);
    assert!(!s.is_shut_down());
}

#[test]
fn write_failure_closes_direction_and_source() {
    let mut s = session();
    s.forward_from_remote(ReadOutcome::Data(b"lost".to_vec()))
        .unwrap();
    assert_eq!(
        s.flush_to_local(WriteOutcome::Failed),
        Err(ForwarderError::WriteFailure(Direction::RemoteToLocal))
    );
    assert_eq!(s.state(Direction::RemoteToLocal), DirectionState::Closed);
    assert!(!s.remote_stream().can_read());
    assert!(s.local_stream().can_write());
    assert_eq!(s.state(Direction::LocalToRemote), DirectionState::Open);
}

#[test]
fn events_after_close_are_ignored() {
    let mut s = session();
    assert_eq!(s.forward_from_local(ReadOutcome::Eof), Ok(true));
    assert_eq!(
        s.forward_from_local(ReadOutcome::Data(b"late".to_vec())),
        Ok(true)
    );
    assert_eq!(s.forward_from_local(ReadOutcome::Failed), Ok(true));
    assert!(s.pending(Direction::LocalToRemote).is_empty());
    // A write outcome with nothing pending is no failure either.
    assert_eq!(s.flush_to_remote(WriteOutcome::Failed), Ok(true));
    assert_eq!(s.flush_to_local(WriteOutcome::Failed), Ok(false));
    assert_eq!(s.state(Direction::RemoteToLocal), DirectionState::Open);
}

#[test]
fn session_of_half_closed_sockets_starts_closed() {
    let mut local = StreamSocket::new(SocketKind::Tcp);
    local.shutdown_read();
    local.shutdown_read();
    assert!(!local.can_read());
    assert!(local.can_write());
    assert!(!local.is_shut_down());
    let remote = StreamSocket::new(SocketKind::Vsock);
    let s = ForwarderSession::new(local, remote);
    assert_eq!(s.state(Direction::LocalToRemote), DirectionState::Closed);
    assert_eq!(s.state(Direction::RemoteToLocal), DirectionState::Open);
}

#[test]
fn directions_and_sides() {
    assert_eq!(Direction::LocalToRemote.source(), Side::Local);
    assert_eq!(Direction::LocalToRemote.destination(), Side::Remote);
    assert_eq!(Direction::RemoteToLocal.source(), Side::Remote);
    assert_eq!(Direction::RemoteToLocal.destination(), Side::Local);
    assert_eq!(Direction::LocalToRemote.reverse(), Direction::RemoteToLocal);
    assert_eq!(Direction::from_side(Side::Remote), Direction::RemoteToLocal);
    assert_eq!(Side::Local.opposite(), Side::Remote);
    assert!(Interest {
        read: false,
        write: false
    }
    .is_none());
    assert!(!Interest {
        read: false,
        write: true
    }
    .is_none());
}

#[test]
fn one_byte_chunk_session_relays() {
    let mut s = small_session(1);
    assert_eq!(s.read_budget(Direction::LocalToRemote), 1);
    s.forward_from_local(ReadOutcome::Data(vec![7])).unwrap();
    assert_eq!(s.read_budget(Direction::LocalToRemote), 0);
    assert!(s.wants_write(Direction::LocalToRemote));
    assert_eq!(s.flush_to_remote(WriteOutcome::Written(1)), Ok(false));
    assert_eq!(s.read_budget(Direction::LocalToRemote), 1);
    assert_eq!(s.forward_from_local(ReadOutcome::Eof), Ok(true));
    assert_eq!(s.forward_from_remote(ReadOutcome::Eof), Ok(true));
    assert!(s.is_shut_down());
}

#[test]
fn failure_messages() {
    assert_eq!(
        ForwarderError::ReadFailure(Direction::LocalToRemote).message(),
        "failed to read from local stream"
    );
    assert_eq!(
        ForwarderError::ReadFailure(Direction::RemoteToLocal).message(),
        "failed to read from remote stream"
    );
    assert_eq!(
        ForwarderError::WriteFailure(Direction::LocalToRemote).message(),
        "failed to write to remote stream"
    );
    assert_eq!(
        ForwarderError::WriteFailure(Direction::RemoteToLocal).message(),
        "failed to write to local stream"
    );
}

#[test]
fn work_is_read_once_then_write_until_stall() {
    let d = Direction::LocalToRemote;
    let mut s = small_session(4);
    // Nothing is ready: wait.
    assert_eq!(s.work(d, false, false), Work::Wait);
    // The source is ready: read one chunk.
    assert_eq!(s.work(d, true, false), Work::Read(4));
    s.on_read(d, ReadOutcome::Data(b"abcd".to_vec())).unwrap();
    // The buffer holds a chunk: no more reads, even from a ready source.
    assert_eq!(s.work(d, true, false), Work::Write);
    assert_eq!(s.work(d, false, false), Work::Write);
    s.on_write(d, WriteOutcome::Written(3)).unwrap();
    // Room again: a ready source is read before the rest is written.
    assert_eq!(s.work(d, true, false), Work::Read(4));
    assert_eq!(s.work(d, false, false), Work::Write);
    // After a stalled write there is nothing to do but wait.
    let outcome = WriteOutcome::WouldBlock;
    s.on_write(d, outcome).unwrap();
    assert_eq!(s.work(d, false, outcome.stalls()), Work::Wait);
    // The other direction has nothing to write.
    assert_eq!(s.work(Direction::RemoteToLocal, false, false), Work::Wait);
    // A draining direction is written, never read.
    s.on_read(d, ReadOutcome::Eof).unwrap();
    assert_eq!(s.work(d, true, false), Work::Write);
    s.on_write(d, WriteOutcome::Written(1)).unwrap();
    assert_eq!(s.work(d, true, false), Work::Wait);
}
