//! The state of one connected stream endpoint, as the forwarding logic sees
//! it: which transport it belongs to and which of its two halves are still
//! in use. The descriptor itself lives with the caller, who reports every
//! read and write back as an outcome.

use vstd::prelude::*;
use crate::text::same_text;

verus! {

/// Transport of a stream endpoint.
#[derive(Clone, Copy, Debug, PartialEq, Eq, Structural)]
pub enum SocketKind {
    /// A TCP connection on the host.
    Tcp,
    /// A virtual socket into a guest.
    Vsock,
}

/// One of the two ends of a forwarding session.
#[derive(Clone, Copy, Debug, PartialEq, Eq, Structural)]
pub enum Side {
    /// The endpoint accepted on the host (TCP).
    Local,
    /// The endpoint that leads into the guest (vsock).
    Remote,
}

impl Side {
    /// The other end of the session.
    pub open spec fn spec_opposite(self) -> Side {
        match self {
            Side::Local => Side::Remote,
            Side::Remote => Side::Local,
        }
    }

    /// The other end of the session.
    #[verifier::when_used_as_spec(spec_opposite)]
    pub fn opposite(self) -> (other: Side)
        ensures
            other == self.spec_opposite(),
    {
        match self {
            Side::Local => Side::Remote,
            Side::Remote => Side::Local,
        }
    }
}

/// Mathematical value of a [`StreamSocket`].
pub struct SocketView {
    pub kind: SocketKind,
    /// The read half has not been shut down.
    pub read_open: bool,
    /// The write half has not been shut down.
    pub write_open: bool,
}

impl SocketView {
    /// A freshly connected endpoint: both halves in use.
    pub open spec fn connected(kind: SocketKind) -> SocketView {
        SocketView { kind, read_open: true, write_open: true }
    }

    pub open spec fn with_read_shut(self) -> SocketView {
        SocketView { read_open: false, ..self }
    }

    pub open spec fn with_write_shut(self) -> SocketView {
        SocketView { write_open: false, ..self }
    }

    /// Both halves are shut down.
    pub open spec fn closed(self) -> bool {
        !self.read_open && !self.write_open
    }
}

/// A connected stream endpoint with its half-close status.
#[derive(Clone, Copy, Debug, PartialEq, Eq)]
pub struct StreamSocket {
    kind: SocketKind,
    read_open: bool,
    write_open: bool,
}

impl View for StreamSocket {
    type V = SocketView;

    closed spec fn view(&self) -> SocketView {
        SocketView { kind: self.kind, read_open: self.read_open, write_open: self.write_open }
    }
}

impl StreamSocket {
    /// A freshly connected endpoint of the given transport.
    pub fn new(kind: SocketKind) -> (socket: StreamSocket)
        ensures
            socket@ == SocketView::connected(kind),
    {
        StreamSocket { kind, read_open: true, write_open: true }
    }

    pub fn kind(&self) -> (kind: SocketKind)
        ensures
            kind == self@.kind,
    {
        self.kind
    }

    /// Whether reads may still be attempted.
    pub fn can_read(&self) -> (open: bool)
        ensures
            open == self@.read_open,
    {
        self.read_open
    }

    /// Whether writes may still be attempted.
    pub fn can_write(&self) -> (open: bool)
        ensures
            open == self@.write_open,
    {
        self.write_open
    }

    /// Whether both halves have been shut down.
    pub fn is_shut_down(&self) -> (closed: bool)
        ensures
            closed == self@.closed(),
    {
        !self.read_open && !self.write_open
    }

    /// Marks the read half as shut down. Doing so twice changes nothing.
    pub fn shutdown_read(&mut self)
        ensures
            final(self)@ == old(self)@.with_read_shut(),
    {
        self.read_open = false;
    }

    /// Marks the write half as shut down. Doing so twice changes nothing.
    pub fn shutdown_write(&mut self)
        ensures
            final(self)@ == old(self)@.with_write_shut(),
    {
        self.write_open = false;
    }
}

/// The kind of traffic that a forwarder is asked to carry.
#[derive(Clone, Copy, Debug, PartialEq, Eq, Structural)]
pub enum TrafficType {
    Stream,
    Datagram,
}

/// Why a forwarder cannot carry the traffic asked for.
#[derive(Clone, Copy, Debug, PartialEq, Eq, Structural)]
pub enum TrafficError {
    /// Datagram sockets are not yet supported.
    DatagramUnsupported,
    /// The text names no type of traffic.
    InvalidType,
}

/// The traffic that the `type` option of the command line asks for:
/// streams when the option is absent or says `stream`. Datagrams are known
/// but not supported, and any other text is invalid.
pub open spec fn traffic_of(option: Option<Seq<char>>) -> Result<TrafficType, TrafficError> {
    match option {
        None => Ok(TrafficType::Stream),
        Some(text) => if text == "stream"@ {
            Ok(TrafficType::Stream)
        } else if text == "datagram"@ {
            Err(TrafficError::DatagramUnsupported)
        } else {
            Err(TrafficError::InvalidType)
        },
    }
}

/// Decides what the `type` option of the command line asks for.
pub fn traffic_type(option: Option<&str>) -> (traffic: Result<TrafficType, TrafficError>)
    ensures
        traffic == traffic_of(
            match option {
                Some(text) => Some(text@),
                None => None,
            },
        ),
{
    match option {
        None => Ok(TrafficType::Stream),
        Some(text) => {
            if same_text(text, "stream") {
                Ok(TrafficType::Stream)
            } else if same_text(text, "datagram") {
                Err(TrafficError::DatagramUnsupported)
            } else {
                Err(TrafficError::InvalidType)
            }
        },
    }
}

/// What one read on a source endpoint returned.
#[derive(Debug)]
pub enum ReadOutcome {
    /// The bytes that were read. An empty vector is the end of the stream.
    Data(Vec<u8>),
    /// Orderly end of stream: the read returned zero bytes.
    Eof,
    /// Nothing is available right now.
    WouldBlock,
    /// The read failed for good.
    Failed,
}

/// What one write of the pending bytes to a destination endpoint returned.
#[derive(Clone, Copy, Debug, PartialEq, Eq)]
pub enum WriteOutcome {
    /// The destination took this many bytes from the front of the buffer.
    Written(usize),
    /// The destination takes nothing right now.
    WouldBlock,
    /// The write failed for good.
    Failed,
}

/// Mathematical value of a [`ReadOutcome`].
pub enum ReadEvent {
    Data(Seq<u8>),
    Eof,
    WouldBlock,
    Failed,
}

/// Mathematical value of a [`WriteOutcome`].
pub enum WriteEvent {
    Written(nat),
    WouldBlock,
    Failed,
}

impl ReadEvent {
    /// The read signals the end of the stream.
    pub open spec fn is_end(self) -> bool {
        match self {
            ReadEvent::Eof => true,
            ReadEvent::Data(bytes) => bytes.len() == 0,
            _ => false,
        }
    }

    /// The bytes the read produced, none unless it is `Data`.
    pub open spec fn bytes(self) -> Seq<u8> {
        match self {
            ReadEvent::Data(bytes) => bytes,
            _ => Seq::empty(),
        }
    }
}

impl WriteEvent {
    /// The write made no progress: the destination took nothing, and the
    /// next attempt is to wait until it is ready to be written to.
    pub open spec fn stalls(self) -> bool {
        self == WriteEvent::WouldBlock || self == WriteEvent::Written(0)
    }
}

impl WriteOutcome {
    /// Whether the write made no progress, so that writing stops until
    /// the destination is ready again.
    pub fn stalls(&self) -> (stalled: bool)
        ensures
            stalled == self@.stalls(),
    {
        match self {
            WriteOutcome::WouldBlock => true,
            WriteOutcome::Written(count) => *count == 0,
            WriteOutcome::Failed => false,
        }
    }
}

impl View for ReadOutcome {
    type V = ReadEvent;

    open spec fn view(&self) -> ReadEvent {
        match self {
            ReadOutcome::Data(bytes) => ReadEvent::Data(bytes@),
            ReadOutcome::Eof => ReadEvent::Eof,
            ReadOutcome::WouldBlock => ReadEvent::WouldBlock,
            ReadOutcome::Failed => ReadEvent::Failed,
        }
    }
}

impl View for WriteOutcome {
    type V = WriteEvent;

    open spec fn view(&self) -> WriteEvent {
        match self {
            WriteOutcome::Written(n) => WriteEvent::Written(*n as nat),
            WriteOutcome::WouldBlock => WriteEvent::WouldBlock,
            WriteOutcome::Failed => WriteEvent::Failed,
        }
    }
}

/// Shutting a half down twice is the same as doing it once, and the two
/// halves do not affect each other.
pub proof fn shutdown_idempotent(socket: SocketView)
    ensures
        socket.with_read_shut().with_read_shut() == socket.with_read_shut(),
        socket.with_write_shut().with_write_shut() == socket.with_write_shut(),
        socket.with_read_shut().with_write_shut() == socket.with_write_shut().with_read_shut(),
        socket.with_read_shut().with_write_shut().closed(),
{
}

} // verus!
