//! The relay state machine of one forwarding session.
//!
//! A session joins a local and a remote stream endpoint. Each direction is
//! relayed on its own: bytes read from the source are buffered until the
//! destination has taken them, the end of the source's stream is passed on
//! once the buffer has drained, and a failure ends the direction at once.
//! The session never touches a descriptor: the caller reads and writes, and
//! hands every outcome to the session, which answers with the next state and
//! with what is to be shut down.

use vstd::prelude::*;
use vstd::string::*;
use crate::stream::{ReadEvent, ReadOutcome, Side, SocketView, StreamSocket, WriteEvent, WriteOutcome};

verus! {

/// Number of bytes asked of a source per read unless configured otherwise.
pub const DEFAULT_CHUNK_SIZE: usize = 8192;

/// One of the two ways bytes travel through a session.
#[derive(Clone, Copy, Debug, PartialEq, Eq, Structural)]
pub enum Direction {
    LocalToRemote,
    RemoteToLocal,
}

impl Direction {
    /// The endpoint the direction reads from.
    pub open spec fn spec_source(self) -> Side {
        match self {
            Direction::LocalToRemote => Side::Local,
            Direction::RemoteToLocal => Side::Remote,
        }
    }

    /// The endpoint the direction writes to.
    pub open spec fn spec_destination(self) -> Side {
        self.spec_source().spec_opposite()
    }

    /// The direction that flows the other way.
    pub open spec fn spec_reverse(self) -> Direction {
        match self {
            Direction::LocalToRemote => Direction::RemoteToLocal,
            Direction::RemoteToLocal => Direction::LocalToRemote,
        }
    }

    /// The direction that reads from `side`.
    pub open spec fn spec_from_side(side: Side) -> Direction {
        match side {
            Side::Local => Direction::LocalToRemote,
            Side::Remote => Direction::RemoteToLocal,
        }
    }

    /// The endpoint the direction reads from.
    #[verifier::when_used_as_spec(spec_source)]
    pub fn source(self) -> (side: Side)
        ensures
            side == self.spec_source(),
    {
        match self {
            Direction::LocalToRemote => Side::Local,
            Direction::RemoteToLocal => Side::Remote,
        }
    }

    /// The endpoint the direction writes to.
    #[verifier::when_used_as_spec(spec_destination)]
    pub fn destination(self) -> (side: Side)
        ensures
            side == self.spec_destination(),
    {
        match self {
            Direction::LocalToRemote => Side::Remote,
            Direction::RemoteToLocal => Side::Local,
        }
    }

    /// The direction that flows the other way.
    #[verifier::when_used_as_spec(spec_reverse)]
    pub fn reverse(self) -> (other: Direction)
        ensures
            other == self.spec_reverse(),
    {
        match self {
            Direction::LocalToRemote => Direction::RemoteToLocal,
            Direction::RemoteToLocal => Direction::LocalToRemote,
        }
    }

    /// The direction that reads from `side`.
    #[verifier::when_used_as_spec(spec_from_side)]
    pub fn from_side(side: Side) -> (direction: Direction)
        ensures
            direction == Direction::spec_from_side(side),
    {
        match side {
            Side::Local => Direction::LocalToRemote,
            Side::Remote => Direction::RemoteToLocal,
        }
    }
}

/// Progress of one direction.
#[derive(Clone, Copy, Debug, PartialEq, Eq, Structural)]
pub enum DirectionState {
    /// The source may still deliver bytes.
    Open,
    /// The source has ended; buffered bytes are still being written.
    Draining,
    /// Nothing more is read or written in this direction.
    Closed,
}

/// Why a direction ended early. Such a failure ends one session, never the
/// process around it.
#[derive(Clone, Copy, Debug, PartialEq, Eq, Structural)]
pub enum ForwarderError {
    /// Reading from the direction's source failed.
    ReadFailure(Direction),
    /// Writing to the direction's destination failed.
    WriteFailure(Direction),
}

impl ForwarderError {
    /// The message shown for the failure.
    pub open spec fn text(self) -> Seq<char> {
        match self {
            ForwarderError::ReadFailure(Direction::LocalToRemote) =>
                "failed to read from local stream"@,
            ForwarderError::ReadFailure(Direction::RemoteToLocal) =>
                "failed to read from remote stream"@,
            ForwarderError::WriteFailure(Direction::LocalToRemote) =>
                "failed to write to remote stream"@,
            ForwarderError::WriteFailure(Direction::RemoteToLocal) =>
                "failed to write to local stream"@,
        }
    }

    /// The message shown for the failure.
    pub fn message(&self) -> (text: String)
        ensures
            text@ == self.text(),
    {
        match self {
            ForwarderError::ReadFailure(Direction::LocalToRemote) => String::from_str(
                "failed to read from local stream",
            ),
            ForwarderError::ReadFailure(Direction::RemoteToLocal) => String::from_str(
                "failed to read from remote stream",
            ),
            ForwarderError::WriteFailure(Direction::LocalToRemote) => String::from_str(
                "failed to write to remote stream",
            ),
            ForwarderError::WriteFailure(Direction::RemoteToLocal) => String::from_str(
                "failed to write to local stream",
            ),
        }
    }
}

/// Which readiness a session wants to be told about for one endpoint.
#[derive(Clone, Copy, Debug, PartialEq, Eq, Structural)]
pub struct Interest {
    pub read: bool,
    pub write: bool,
}

impl Interest {
    /// No readiness is wanted: the descriptor can leave the multiplexer.
    pub open spec fn spec_is_none(self) -> bool {
        !self.read && !self.write
    }

    /// No readiness is wanted: the descriptor can leave the multiplexer.
    #[verifier::when_used_as_spec(spec_is_none)]
    pub fn is_none(self) -> (none: bool)
        ensures
            none == self.spec_is_none(),
    {
        !self.read && !self.write
    }
}

/// What is to be done next for one direction.
#[derive(Clone, Copy, Debug, PartialEq, Eq, Structural)]
pub enum Work {
    /// Read at most this many bytes from the source and report the
    /// outcome.
    Read(usize),
    /// Write the pending bytes to the destination and report the outcome.
    Write,
    /// Nothing until a descriptor is ready again.
    Wait,
}

/// Mathematical value of one direction: its state and the bytes that were
/// read from the source and not yet taken by the destination, oldest first.
pub struct RelayView {
    pub state: DirectionState,
    pub pending: Seq<u8>,
}

impl RelayView {
    /// A direction that has relayed nothing yet.
    pub open spec fn fresh(open: bool) -> RelayView {
        RelayView {
            state: if open { DirectionState::Open } else { DirectionState::Closed },
            pending: Seq::empty(),
        }
    }

    /// States that a relay can reach: a closed direction holds no bytes, and
    /// a draining one still has some to write.
    pub open spec fn wf(self) -> bool {
        &&& self.state == DirectionState::Closed ==> self.pending.len() == 0
        &&& self.state == DirectionState::Draining ==> self.pending.len() > 0
    }

    /// A write would be attempted: there are bytes and the direction lives.
    pub open spec fn writable(self) -> bool {
        self.state != DirectionState::Closed && self.pending.len() > 0
    }

    /// The bytes that a read adds to the buffer: those of a `Data` outcome
    /// while the direction is open.
    pub open spec fn taken(self, ev: ReadEvent) -> Seq<u8> {
        if self.state == DirectionState::Open {
            ev.bytes()
        } else {
            Seq::empty()
        }
    }

    /// How many bytes a write outcome removes from the front of the buffer.
    pub open spec fn accepted(self, ev: WriteEvent) -> nat {
        match ev {
            WriteEvent::Written(n) if self.writable() => if n <= self.pending.len() {
                n
            } else {
                self.pending.len()
            },
            _ => 0,
        }
    }

    /// The bytes that a write outcome hands to the destination.
    pub open spec fn given(self, ev: WriteEvent) -> Seq<u8> {
        self.pending.take(self.accepted(ev) as int)
    }

    /// The read outcome is a failure that ends the direction.
    pub open spec fn read_fails(self, ev: ReadEvent) -> bool {
        self.state == DirectionState::Open && ev == ReadEvent::Failed
    }

    /// The write outcome is a failure that ends the direction.
    pub open spec fn write_fails(self, ev: WriteEvent) -> bool {
        self.writable() && ev == WriteEvent::Failed
    }

    /// The direction after a read on its source returned `ev`. Reads are
    /// only made while the direction is open; the outcome of any other read
    /// changes nothing.
    pub open spec fn after_read(self, ev: ReadEvent) -> RelayView {
        if self.state != DirectionState::Open {
            self
        } else if ev == ReadEvent::Failed {
            RelayView { state: DirectionState::Closed, pending: Seq::empty() }
        } else if ev.is_end() {
            if self.pending.len() == 0 {
                RelayView { state: DirectionState::Closed, pending: self.pending }
            } else {
                RelayView { state: DirectionState::Draining, pending: self.pending }
            }
        } else {
            RelayView { state: self.state, pending: self.pending + ev.bytes() }
        }
    }

    /// The direction after a write of its buffer returned `ev`. Writes are
    /// only made while bytes are pending; the outcome of any other write
    /// changes nothing.
    pub open spec fn after_write(self, ev: WriteEvent) -> RelayView {
        if !self.writable() {
            self
        } else if ev == WriteEvent::Failed {
            RelayView { state: DirectionState::Closed, pending: Seq::empty() }
        } else {
            let rest = self.pending.skip(self.accepted(ev) as int);
            if rest.len() == 0 && self.state == DirectionState::Draining {
                RelayView { state: DirectionState::Closed, pending: rest }
            } else {
                RelayView { state: self.state, pending: rest }
            }
        }
    }
}

/// One direction of a session.
#[derive(Debug)]
pub struct Relay {
    state: DirectionState,
    pending: Vec<u8>,
}

impl View for Relay {
    type V = RelayView;

    closed spec fn view(&self) -> RelayView {
        RelayView { state: self.state, pending: self.pending@ }
    }
}

impl Relay {
    /// A direction that has relayed nothing yet; closed from the start if
    /// one of its two halves is already shut down.
    pub fn new(open: bool) -> (relay: Relay)
        ensures
            relay@ == RelayView::fresh(open),
    {
        Relay {
            state: if open { DirectionState::Open } else { DirectionState::Closed },
            pending: Vec::new(),
        }
    }

    pub fn state(&self) -> (state: DirectionState)
        ensures
            state == self@.state,
    {
        self.state
    }

    /// The bytes to offer to the destination next, oldest first.
    pub fn pending(&self) -> (bytes: &Vec<u8>)
        ensures
            bytes@ == self@.pending,
    {
        &self.pending
    }

    /// Whether a write should be attempted.
    pub fn is_writable(&self) -> (writable: bool)
        ensures
            writable == self@.writable(),
    {
        self.state != DirectionState::Closed && self.pending.len() > 0
    }

    /// Takes in the outcome of one read on the source. Returns whether the
    /// read was a failure that ended the direction.
    pub fn on_read(&mut self, outcome: ReadOutcome) -> (failed: bool)
        ensures
            final(self)@ == old(self)@.after_read(outcome@),
            failed == old(self)@.read_fails(outcome@),
    {
        if self.state != DirectionState::Open {
            return false;
        }
        match outcome {
            ReadOutcome::Failed => {
                self.state = DirectionState::Closed;
                self.pending = Vec::new();
                true
            },
            ReadOutcome::WouldBlock => {
                assert(self.pending@ + Seq::<u8>::empty() =~= self.pending@);
                false
            },
            ReadOutcome::Eof => {
                self.end_of_source();
                false
            },
            ReadOutcome::Data(bytes) => {
                if bytes.len() == 0 {
                    self.end_of_source();
                } else {
                    let mut bytes = bytes;
                    self.pending.append(&mut bytes);
                }
                false
            },
        }
    }

    fn end_of_source(&mut self)
        requires
            old(self)@.state == DirectionState::Open,
        ensures
            final(self)@ == old(self)@.after_read(ReadEvent::Eof),
    {
        if self.pending.len() == 0 {
            self.state = DirectionState::Closed;
        } else {
            self.state = DirectionState::Draining;
        }
    }

    /// Takes in the outcome of one write of the pending bytes. Returns
    /// whether the write was a failure that ended the direction.
    pub fn on_write(&mut self, outcome: WriteOutcome) -> (failed: bool)
        ensures
            final(self)@ == old(self)@.after_write(outcome@),
            failed == old(self)@.write_fails(outcome@),
    {
        if !self.is_writable() {
            return false;
        }
        match outcome {
            WriteOutcome::Failed => {
                self.state = DirectionState::Closed;
                self.pending = Vec::new();
                true
            },
            WriteOutcome::WouldBlock => {
                assert(self.pending@.skip(0) =~= self.pending@);
                false
            },
            WriteOutcome::Written(n) => {
                let taken: usize = if n <= self.pending.len() { n } else { self.pending.len() };
                let rest = self.pending.split_off(taken);
                assert(rest@ =~= old(self)@.pending.skip(taken as int));
                self.pending = rest;
                if self.pending.len() == 0 && self.state == DirectionState::Draining {
                    self.state = DirectionState::Closed;
                }
                false
            },
        }
    }
}

/// Mathematical value of a session.
pub struct SessionView {
    pub local: SocketView,
    pub remote: SocketView,
    pub local_to_remote: RelayView,
    pub remote_to_local: RelayView,
    pub chunk_size: nat,
}

/// One thing that happened to a session, as reported by the caller.
pub enum SessionEvent {
    /// A read on the source of a direction returned.
    Read(Direction, ReadEvent),
    /// A write to the destination of a direction returned.
    Write(Direction, WriteEvent),
}

impl SessionEvent {
    pub open spec fn direction(self) -> Direction {
        match self {
            SessionEvent::Read(direction, _) => direction,
            SessionEvent::Write(direction, _) => direction,
        }
    }
}

impl SessionView {
    /// The session made of two endpoints, before any byte has moved. A
    /// direction whose source can no longer be read, or whose destination
    /// can no longer be written, is closed from the start.
    pub open spec fn start(local: SocketView, remote: SocketView, chunk_size: nat) -> SessionView {
        SessionView {
            local,
            remote,
            local_to_remote: RelayView::fresh(local.read_open && remote.write_open),
            remote_to_local: RelayView::fresh(remote.read_open && local.write_open),
            chunk_size,
        }
    }

    pub open spec fn socket(self, side: Side) -> SocketView {
        match side {
            Side::Local => self.local,
            Side::Remote => self.remote,
        }
    }

    pub open spec fn relay(self, direction: Direction) -> RelayView {
        match direction {
            Direction::LocalToRemote => self.local_to_remote,
            Direction::RemoteToLocal => self.remote_to_local,
        }
    }

    pub open spec fn with_socket(self, side: Side, socket: SocketView) -> SessionView {
        match side {
            Side::Local => SessionView { local: socket, ..self },
            Side::Remote => SessionView { remote: socket, ..self },
        }
    }

    pub open spec fn with_relay(self, direction: Direction, relay: RelayView) -> SessionView {
        match direction {
            Direction::LocalToRemote => SessionView { local_to_remote: relay, ..self },
            Direction::RemoteToLocal => SessionView { remote_to_local: relay, ..self },
        }
    }

    /// States that a session can reach: a chunk holds at least one byte,
    /// both relays are well formed, and a direction that is not closed
    /// still has both of its halves.
    pub open spec fn wf(self) -> bool {
        &&& self.chunk_size > 0
        &&& self.local_to_remote.wf()
        &&& self.remote_to_local.wf()
        &&& self.local_to_remote.state != DirectionState::Closed ==> self.local.read_open
            && self.remote.write_open
        &&& self.remote_to_local.state != DirectionState::Closed ==> self.remote.read_open
            && self.local.write_open
    }

    /// Both directions are closed.
    pub open spec fn shut_down(self) -> bool {
        self.local_to_remote.state == DirectionState::Closed && self.remote_to_local.state
            == DirectionState::Closed
    }

    /// A read on the source of `direction` is wanted: the direction is open
    /// and holds less than one chunk.
    pub open spec fn wants_read(self, direction: Direction) -> bool {
        self.relay(direction).state == DirectionState::Open && self.relay(direction).pending.len()
            < self.chunk_size
    }

    /// A write to the destination of `direction` is wanted.
    pub open spec fn wants_write(self, direction: Direction) -> bool {
        self.relay(direction).writable()
    }

    /// The most bytes that the next read on the source of `direction` may
    /// return: one chunk while a read is wanted, nothing otherwise.
    pub open spec fn read_budget(self, direction: Direction) -> nat {
        if self.wants_read(direction) {
            self.chunk_size
        } else {
            0
        }
    }

    /// What is to be done next for `direction`. A source that was
    /// reported readable is read once, if a read is wanted; then the
    /// pending bytes are written, for as long as there are some and the
    /// last write did not stall; then there is nothing to do but wait.
    pub open spec fn work(self, direction: Direction, source_ready: bool, stalled: bool) -> Work {
        if source_ready && self.wants_read(direction) {
            Work::Read(self.chunk_size as usize)
        } else if self.wants_write(direction) && !stalled {
            Work::Write
        } else {
            Work::Wait
        }
    }

    /// The readiness to watch on one endpoint: readable while the direction
    /// from it wants a read, writable while the direction to it has bytes.
    pub open spec fn interest(self, side: Side) -> Interest {
        Interest {
            read: self.wants_read(Direction::spec_from_side(side)),
            write: self.wants_write(Direction::spec_from_side(side.spec_opposite())),
        }
    }

    /// The failure, if any, that an event raises.
    pub open spec fn failure(self, ev: SessionEvent) -> Option<ForwarderError> {
        match ev {
            SessionEvent::Read(direction, read) => if self.relay(direction).read_fails(read) {
                Some(ForwarderError::ReadFailure(direction))
            } else {
                None
            },
            SessionEvent::Write(direction, write) => if self.relay(direction).write_fails(write) {
                Some(ForwarderError::WriteFailure(direction))
            } else {
                None
            },
        }
    }

    /// The session after a read on the source of `direction`. When the read
    /// fails, or ends the stream with nothing left to write, the write half
    /// of the destination is shut down.
    pub open spec fn after_read(self, direction: Direction, ev: ReadEvent) -> SessionView {
        let relay = self.relay(direction).after_read(ev);
        let moved = self.with_relay(direction, relay);
        if self.relay(direction).state != DirectionState::Closed && relay.state
            == DirectionState::Closed {
            moved.with_socket(
                direction.spec_destination(),
                self.socket(direction.spec_destination()).with_write_shut(),
            )
        } else {
            moved
        }
    }

    /// The session after a write to the destination of `direction`. When
    /// the write fails, the read half of the source is shut down; when it
    /// empties the buffer of a draining direction, the write half of the
    /// destination is.
    pub open spec fn after_write(self, direction: Direction, ev: WriteEvent) -> SessionView {
        let relay = self.relay(direction).after_write(ev);
        let moved = self.with_relay(direction, relay);
        if self.relay(direction).write_fails(ev) {
            moved.with_socket(
                direction.spec_source(),
                self.socket(direction.spec_source()).with_read_shut(),
            )
        } else if self.relay(direction).state != DirectionState::Closed && relay.state
            == DirectionState::Closed {
            moved.with_socket(
                direction.spec_destination(),
                self.socket(direction.spec_destination()).with_write_shut(),
            )
        } else {
            moved
        }
    }

    /// The session after one event.
    pub open spec fn step(self, ev: SessionEvent) -> SessionView {
        match ev {
            SessionEvent::Read(direction, read) => self.after_read(direction, read),
            SessionEvent::Write(direction, write) => self.after_write(direction, write),
        }
    }

    /// The bytes that an event takes from the source of `direction`.
    pub open spec fn taken(self, ev: SessionEvent, direction: Direction) -> Seq<u8> {
        match ev {
            SessionEvent::Read(d, read) if d == direction => self.relay(direction).taken(read),
            _ => Seq::empty(),
        }
    }

    /// The bytes that an event hands to the destination of `direction`.
    pub open spec fn given(self, ev: SessionEvent, direction: Direction) -> Seq<u8> {
        match ev {
            SessionEvent::Write(d, write) if d == direction => self.relay(direction).given(write),
            _ => Seq::empty(),
        }
    }
}

/// A forwarding session: two endpoints and the relay between them.
#[derive(Debug)]
pub struct ForwarderSession {
    local: StreamSocket,
    remote: StreamSocket,
    local_to_remote: Relay,
    remote_to_local: Relay,
    chunk_size: usize,
}

impl View for ForwarderSession {
    type V = SessionView;

    closed spec fn view(&self) -> SessionView {
        SessionView {
            local: self.local@,
            remote: self.remote@,
            local_to_remote: self.local_to_remote@,
            remote_to_local: self.remote_to_local@,
            chunk_size: self.chunk_size as nat,
        }
    }
}

impl ForwarderSession {
    /// Joins two endpoints into a session that reads one default chunk at a
    /// time.
    pub fn new(local: StreamSocket, remote: StreamSocket) -> (session: ForwarderSession)
        ensures
            session@ == SessionView::start(local@, remote@, DEFAULT_CHUNK_SIZE as nat),
            session@.wf(),
    {
        ForwarderSession::with_chunk_size(local, remote, DEFAULT_CHUNK_SIZE)
    }

    /// Joins two endpoints into a session that reads at most `chunk_size`
    /// bytes at a time. A chunk holds at least one byte: a session that
    /// may read nothing could neither relay nor close.
    pub fn with_chunk_size(local: StreamSocket, remote: StreamSocket, chunk_size: usize) -> (session:
        ForwarderSession)
        requires
            chunk_size > 0,
        ensures
            session@ == SessionView::start(local@, remote@, chunk_size as nat),
            session@.wf(),
    {
        let outbound = Relay::new(local.can_read() && remote.can_write());
        let inbound = Relay::new(remote.can_read() && local.can_write());
        ForwarderSession {
            local,
            remote,
            local_to_remote: outbound,
            remote_to_local: inbound,
            chunk_size,
        }
    }

    /// The local endpoint with its current half-close status.
    pub fn local_stream(&self) -> (socket: &StreamSocket)
        ensures
            socket@ == self@.local,
    {
        &self.local
    }

    /// The remote endpoint with its current half-close status.
    pub fn remote_stream(&self) -> (socket: &StreamSocket)
        ensures
            socket@ == self@.remote,
    {
        &self.remote
    }

    pub fn chunk_size(&self) -> (size: usize)
        ensures
            size == self@.chunk_size,
    {
        self.chunk_size
    }

    /// The state of one direction.
    pub fn state(&self, direction: Direction) -> (state: DirectionState)
        ensures
            state == self@.relay(direction).state,
    {
        match direction {
            Direction::LocalToRemote => self.local_to_remote.state(),
            Direction::RemoteToLocal => self.remote_to_local.state(),
        }
    }

    /// The bytes to write to the destination of `direction` next.
    pub fn pending(&self, direction: Direction) -> (bytes: &Vec<u8>)
        ensures
            bytes@ == self@.relay(direction).pending,
    {
        match direction {
            Direction::LocalToRemote => self.local_to_remote.pending(),
            Direction::RemoteToLocal => self.remote_to_local.pending(),
        }
    }

    /// Whether both directions are closed, so that the session can go.
    pub fn is_shut_down(&self) -> (done: bool)
        ensures
            done == self@.shut_down(),
    {
        self.local_to_remote.state() == DirectionState::Closed && self.remote_to_local.state()
            == DirectionState::Closed
    }

    /// Whether the source of `direction` should be read when it is ready.
    pub fn wants_read(&self, direction: Direction) -> (wanted: bool)
        ensures
            wanted == self@.wants_read(direction),
    {
        self.state(direction) == DirectionState::Open && self.pending(direction).len()
            < self.chunk_size
    }

    /// Whether the destination of `direction` should be written to when it
    /// is ready.
    pub fn wants_write(&self, direction: Direction) -> (wanted: bool)
        ensures
            wanted == self@.wants_write(direction),
    {
        match direction {
            Direction::LocalToRemote => self.local_to_remote.is_writable(),
            Direction::RemoteToLocal => self.remote_to_local.is_writable(),
        }
    }

    /// The most bytes to ask of the source of `direction` in the next read.
    pub fn read_budget(&self, direction: Direction) -> (budget: usize)
        ensures
            budget == self@.read_budget(direction),
    {
        if self.wants_read(direction) {
            self.chunk_size
        } else {
            0
        }
    }

    /// What to do next for `direction`: `source_ready` says that its source
    /// was reported readable and has not been read since, `stalled` that
    /// the last write to its destination made no progress.
    pub fn work(&self, direction: Direction, source_ready: bool, stalled: bool) -> (work: Work)
        ensures
            work == self@.work(direction, source_ready, stalled),
    {
        if source_ready && self.wants_read(direction) {
            Work::Read(self.chunk_size)
        } else if self.wants_write(direction) && !stalled {
            Work::Write
        } else {
            Work::Wait
        }
    }

    /// The readiness to register for one endpoint.
    pub fn interest(&self, side: Side) -> (interest: Interest)
        ensures
            interest == self@.interest(side),
    {
        Interest {
            read: self.wants_read(Direction::from_side(side)),
            write: self.wants_write(Direction::from_side(side.opposite())),
        }
    }

    fn shutdown_write_of(&mut self, side: Side)
        ensures
            final(self)@ == old(self)@.with_socket(side, old(self)@.socket(side).with_write_shut()),
    {
        match side {
            Side::Local => self.local.shutdown_write(),
            Side::Remote => self.remote.shutdown_write(),
        }
    }

    fn shutdown_read_of(&mut self, side: Side)
        ensures
            final(self)@ == old(self)@.with_socket(side, old(self)@.socket(side).with_read_shut()),
    {
        match side {
            Side::Local => self.local.shutdown_read(),
            Side::Remote => self.remote.shutdown_read(),
        }
    }

    /// Takes in the outcome of a read on the source of `direction`.
    ///
    /// Returns `Ok(true)` when the direction reads no more (the source
    /// ended, now or earlier), `Ok(false)` while it stays open, and the read
    /// failure when the outcome is one that ends the direction.
    pub fn on_read(&mut self, direction: Direction, outcome: ReadOutcome) -> (result: Result<
        bool,
        ForwarderError,
    >)
        ensures
            final(self)@ == old(self)@.after_read(direction, outcome@),
            result == match old(self)@.failure(SessionEvent::Read(direction, outcome@)) {
                Some(error) => Err::<bool, ForwarderError>(error),
                None => Ok(final(self)@.relay(direction).state != DirectionState::Open),
            },
    {
        let before = self.state(direction);
        let failed = match direction {
            Direction::LocalToRemote => self.local_to_remote.on_read(outcome),
            Direction::RemoteToLocal => self.remote_to_local.on_read(outcome),
        };
        let after = self.state(direction);
        if before != DirectionState::Closed && after == DirectionState::Closed {
            self.shutdown_write_of(direction.destination());
        }
        if failed {
            Err(ForwarderError::ReadFailure(direction))
        } else {
            Ok(after != DirectionState::Open)
        }
    }

    /// Takes in the outcome of a write to the destination of `direction`.
    ///
    /// Returns `Ok(true)` when the direction is closed, `Ok(false)` while it
    /// lives, and the write failure when the outcome is one that ends the
    /// direction.
    pub fn on_write(&mut self, direction: Direction, outcome: WriteOutcome) -> (result: Result<
        bool,
        ForwarderError,
    >)
        ensures
            final(self)@ == old(self)@.after_write(direction, outcome@),
            result == match old(self)@.failure(SessionEvent::Write(direction, outcome@)) {
                Some(error) => Err::<bool, ForwarderError>(error),
                None => Ok(final(self)@.relay(direction).state == DirectionState::Closed),
            },
    {
        let before = self.state(direction);
        let failed = match direction {
            Direction::LocalToRemote => self.local_to_remote.on_write(outcome),
            Direction::RemoteToLocal => self.remote_to_local.on_write(outcome),
        };
        let after = self.state(direction);
        if failed {
            self.shutdown_read_of(direction.source());
            Err(ForwarderError::WriteFailure(direction))
        } else {
            if before != DirectionState::Closed && after == DirectionState::Closed {
                self.shutdown_write_of(direction.destination());
            }
            Ok(after == DirectionState::Closed)
        }
    }

    /// Takes in the outcome of a read on the local endpoint.
    pub fn forward_from_local(&mut self, outcome: ReadOutcome) -> (result: Result<
        bool,
        ForwarderError,
    >)
        ensures
            final(self)@ == old(self)@.after_read(Direction::LocalToRemote, outcome@),
            result == match old(self)@.failure(
                SessionEvent::Read(Direction::LocalToRemote, outcome@),
            ) {
                Some(error) => Err::<bool, ForwarderError>(error),
                None => Ok(final(self)@.local_to_remote.state != DirectionState::Open),
            },
    {
        self.on_read(Direction::LocalToRemote, outcome)
    }

    /// Takes in the outcome of a read on the remote endpoint.
    pub fn forward_from_remote(&mut self, outcome: ReadOutcome) -> (result: Result<
        bool,
        ForwarderError,
    >)
        ensures
            final(self)@ == old(self)@.after_read(Direction::RemoteToLocal, outcome@),
            result == match old(self)@.failure(
                SessionEvent::Read(Direction::RemoteToLocal, outcome@),
            ) {
                Some(error) => Err::<bool, ForwarderError>(error),
                None => Ok(final(self)@.remote_to_local.state != DirectionState::Open),
            },
    {
        self.on_read(Direction::RemoteToLocal, outcome)
    }

    /// Takes in the outcome of a write to the remote endpoint.
    pub fn flush_to_remote(&mut self, outcome: WriteOutcome) -> (result: Result<
        bool,
        ForwarderError,
    >)
        ensures
            final(self)@ == old(self)@.after_write(Direction::LocalToRemote, outcome@),
            result == match old(self)@.failure(
                SessionEvent::Write(Direction::LocalToRemote, outcome@),
            ) {
                Some(error) => Err::<bool, ForwarderError>(error),
                None => Ok(final(self)@.local_to_remote.state == DirectionState::Closed),
            },
    {
        self.on_write(Direction::LocalToRemote, outcome)
    }

    /// Takes in the outcome of a write to the local endpoint.
    pub fn flush_to_local(&mut self, outcome: WriteOutcome) -> (result: Result<
        bool,
        ForwarderError,
    >)
        ensures
            final(self)@ == old(self)@.after_write(Direction::RemoteToLocal, outcome@),
            result == match old(self)@.failure(
                SessionEvent::Write(Direction::RemoteToLocal, outcome@),
            ) {
                Some(error) => Err::<bool, ForwarderError>(error),
                None => Ok(final(self)@.remote_to_local.state == DirectionState::Closed),
            },
    {
        self.on_write(Direction::RemoteToLocal, outcome)
    }
}

} // verus!
