//! The state that the forwarding daemon keeps between two rounds of its
//! poll loop: the ports it listens on, each with the guest it forwards to,
//! and the table of live sessions. Every readiness event is brought here;
//! the answer says how the table changed and what to watch next.

use std::collections::{BTreeMap, HashMap, VecDeque};
use vstd::prelude::*;
use vstd::string::*;
use crate::text::{decimal_digits, decimal_string, hex_digits, hex_string};
use crate::forwarder::{
    Direction, ForwarderError, ForwarderSession, Interest, SessionEvent, SessionView, Work,
};
use crate::rendezvous::{create_forwarder_session, rendezvous_result, GuestArrival};
use crate::stream::{ReadOutcome, Side, WriteOutcome};
use crate::token::{SessionTag, Token};

verus! {

/// Ports below this number are never forwarded.
pub const FIRST_FORWARDABLE_PORT: u16 = 1024;

/// A TCP forwarding target: a listening port in a given container.
#[derive(Debug)]
pub struct TcpForwardTarget {
    pub port: u16,
    pub vm_name: String,
    pub container_name: String,
    pub owner_id: String,
    pub vsock_cid: u32,
}

/// Why the daemon could not do what a readiness event asked for. None of
/// these ends the daemon: each ends one connection attempt or one session.
#[derive(Debug)]
pub enum Error {
    /// The control plane answered the request for a guest peer with a
    /// failure; the string is the reason it gave.
    ConnectChunnelFailure(String),
    /// The guest that connected back is not the one the port forwards to.
    IncorrectCid(u32),
    /// A connection arrived on a port that has no listener.
    NoListenerForPort(u16),
    /// An event arrived for a session that is not in the table.
    NoSessionForTag(SessionTag),
    /// No guest connected back within the time allowed.
    VsockAcceptTimeout,
}

impl Error {
    /// The message shown for the error.
    pub open spec fn text(self) -> Seq<char> {
        match self {
            Error::ConnectChunnelFailure(reason) => "failed to connect chunnel: "@ + reason@,
            Error::IncorrectCid(cid) => "chunnel connection from unexpected cid "@ + decimal_digits(
                cid as nat,
            ),
            Error::NoListenerForPort(port) => "could not find listener for port: "@
                + decimal_digits(port as nat),
            Error::NoSessionForTag(tag) => "could not find session for tag: "@ + hex_digits(
                tag as nat,
            ),
            Error::VsockAcceptTimeout => "timed out waiting for vsock connection"@,
        }
    }

    /// The message shown for the error.
    pub fn message(&self) -> (text: String)
        ensures
            text@ == self.text(),
    {
        match self {
            Error::ConnectChunnelFailure(reason) => String::from_str(
                "failed to connect chunnel: ",
            ).concat(reason.as_str()),
            Error::IncorrectCid(cid) => String::from_str(
                "chunnel connection from unexpected cid ",
            ).concat(decimal_string(*cid).as_str()),
            Error::NoListenerForPort(port) => String::from_str(
                "could not find listener for port: ",
            ).concat(decimal_string(*port as u32).as_str()),
            Error::NoSessionForTag(tag) => String::from_str(
                "could not find session for tag: ",
            ).concat(hex_string(*tag).as_str()),
            Error::VsockAcceptTimeout => String::from_str("timed out waiting for vsock connection"),
        }
    }
}

/// One entry of the control plane's list of ports to listen on.
#[derive(Debug)]
pub struct ForwardRequest {
    /// The port as the control plane sent it; only its low sixteen bits
    /// are the port.
    pub port: u32,
    pub vm_name: String,
    pub container_name: String,
    pub owner_id: String,
    pub vsock_cid: u32,
}

impl ForwardRequest {
    /// The target that the entry asks for.
    pub open spec fn target(self) -> TcpForwardTarget {
        TcpForwardTarget {
            port: (self.port % 0x1_0000) as u16,
            vm_name: self.vm_name,
            container_name: self.container_name,
            owner_id: self.owner_id,
            vsock_cid: self.vsock_cid,
        }
    }

    /// The target that the entry asks for.
    pub fn into_target(self) -> (target: TcpForwardTarget)
        ensures
            target == self.target(),
    {
        TcpForwardTarget {
            port: (self.port % 0x1_0000) as u16,
            vm_name: self.vm_name,
            container_name: self.container_name,
            owner_id: self.owner_id,
            vsock_cid: self.vsock_cid,
        }
    }
}

/// The answer to the control plane after an update was queued.
#[derive(Clone, Copy, Debug, PartialEq, Eq, Structural)]
pub enum UpdateStatus {
    Success,
    Failed,
}

/// Enqueues the new listening ports received from the control plane for
/// the poll loop to process, in the order given. The request is emptied.
pub fn update_listening_ports(req: &mut VecDeque<ForwardRequest>, update_queue: &mut VecDeque<TcpForwardTarget>)
    ensures
        final(req)@.len() == 0,
        final(update_queue)@ == old(update_queue)@ + old(req)@.map_values(
            |entry: ForwardRequest| entry.target(),
        ),
{
    let ghost all = req@;
    let ghost start = update_queue@;
    let ghost mut done: Seq<ForwardRequest> = Seq::empty();
    assert(start + done.map_values(|entry: ForwardRequest| entry.target()) =~= start);
    while req.len() > 0
        invariant
            done + req@ == all,
            update_queue@ == start + done.map_values(|entry: ForwardRequest| entry.target()),
        decreases req.len(),
    {
        let ghost before = req@;
        let entry = req.pop_front().unwrap();
        proof {
            let next = done.push(entry);
            assert(next + req@ =~= done + before);
            assert(next.map_values(|entry: ForwardRequest| entry.target()) =~= done.map_values(
                |entry: ForwardRequest| entry.target(),
            ).push(entry.target()));
            done = next;
        }
        update_queue.push_back(entry.into_target());
        assert(update_queue@ =~= start + done.map_values(|entry: ForwardRequest| entry.target()));
    }
    assert(done =~= all);
}

/// The status to answer the control plane with: success if the poll loop
/// could be told of the update.
pub fn update_status(notified: bool) -> (status: UpdateStatus)
    ensures
        status == (if notified { UpdateStatus::Success } else { UpdateStatus::Failed }),
{
    if notified {
        UpdateStatus::Success
    } else {
        UpdateStatus::Failed
    }
}

/// How the table changed for one session, and what to watch on its two
/// endpoints from now on.
#[derive(Clone, Copy, Debug, PartialEq, Eq, Structural)]
pub struct SessionUpdate {
    /// The session left the table; both descriptors are to be deregistered
    /// and closed.
    pub removed: bool,
    /// The failure that tore the session down, if one did.
    pub failure: Option<ForwarderError>,
    /// Readiness to watch on the local endpoint.
    pub local: Interest,
    /// Readiness to watch on the remote endpoint.
    pub remote: Interest,
}

/// Mathematical value of the daemon's forwarding state.
pub struct TableView {
    /// The ports that have listeners, each with its target.
    pub listeners: Map<u16, TcpForwardTarget>,
    /// The live sessions by tag.
    pub sessions: Map<SessionTag, SessionView>,
}

/// The listeners after one queued target has been looked at: a target for
/// a privileged port, or for a port that was already dealt with, changes
/// nothing; a port that had a listener keeps it and its old target; a new
/// port is listened on if its listeners could be bound.
pub open spec fn consider(
    kept: Map<u16, TcpForwardTarget>,
    old_listeners: Map<u16, TcpForwardTarget>,
    bound: Set<u16>,
    target: TcpForwardTarget,
) -> Map<u16, TcpForwardTarget> {
    if target.port < FIRST_FORWARDABLE_PORT || kept.contains_key(target.port) {
        kept
    } else if old_listeners.contains_key(target.port) {
        kept.insert(target.port, old_listeners[target.port])
    } else if bound.contains(target.port) {
        kept.insert(target.port, target)
    } else {
        kept
    }
}

/// The listeners after a whole queue of targets, oldest first.
pub open spec fn admitted(
    old_listeners: Map<u16, TcpForwardTarget>,
    bound: Set<u16>,
    queue: Seq<TcpForwardTarget>,
) -> Map<u16, TcpForwardTarget>
    decreases queue.len(),
{
    if queue.len() == 0 {
        Map::empty()
    } else {
        consider(admitted(old_listeners, bound, queue.drop_last()), old_listeners, bound, queue.last())
    }
}

/// The ports that need new listeners for a queue of targets: every port of
/// the queue that may be forwarded and has no listener yet, once each, in
/// the order of first mention.
pub open spec fn wanted_ports(listeners: Map<u16, TcpForwardTarget>, queue: Seq<TcpForwardTarget>) -> Seq<u16>
    decreases queue.len(),
{
    if queue.len() == 0 {
        Seq::empty()
    } else {
        let before = wanted_ports(listeners, queue.drop_last());
        let port = queue.last().port;
        if port >= FIRST_FORWARDABLE_PORT && !listeners.contains_key(port) && !before.contains(port) {
            before.push(port)
        } else {
            before
        }
    }
}

impl TableView {
    /// The table after an event for the session `tag`. An event for a tag
    /// that is not in the table changes nothing. A failure tears the
    /// session down; so does the closing of its second direction.
    pub open spec fn after(self, tag: SessionTag, ev: SessionEvent) -> TableView {
        if !self.sessions.contains_key(tag) {
            self
        } else {
            let session = self.sessions[tag];
            let next = session.step(ev);
            if session.failure(ev) is Some || next.shut_down() {
                TableView { sessions: self.sessions.remove(tag), ..self }
            } else {
                TableView { sessions: self.sessions.insert(tag, next), ..self }
            }
        }
    }

    /// How the attempt to forward a connection accepted on `port` ends.
    pub open spec fn accept_result(self, port: u16, arrival: GuestArrival) -> Result<(), Error> {
        if !self.listeners.contains_key(port) {
            Err(Error::NoListenerForPort(port))
        } else {
            match rendezvous_result(arrival, self.listeners[port]) {
                Ok(_) => Ok(()),
                Err(error) => Err(error),
            }
        }
    }

    /// The table after the attempt to forward a connection accepted on
    /// `port`: with the new session under `tag` if the rendezvous
    /// succeeded, unchanged if it failed.
    pub open spec fn after_accept(self, port: u16, tag: SessionTag, arrival: GuestArrival) -> TableView {
        if !self.listeners.contains_key(port) {
            self
        } else {
            match rendezvous_result(arrival, self.listeners[port]) {
                Ok(session) => TableView { sessions: self.sessions.insert(tag, session), ..self },
                Err(_) => self,
            }
        }
    }

    /// The readiness that the multiplexer is to watch for a token: the
    /// update event always, a listener while its port is listened on, a
    /// socket of a session as the session in the table wants it. A token
    /// of a session that is not in the table is watched for nothing.
    pub open spec fn interest_of(self, token: Token) -> Interest {
        let nothing = Interest { read: false, write: false };
        match token {
            Token::UpdatePorts => Interest { read: true, write: false },
            Token::Ipv4Listener(port) => Interest {
                read: self.listeners.contains_key(port),
                write: false,
            },
            Token::Ipv6Listener(port) => Interest {
                read: self.listeners.contains_key(port),
                write: false,
            },
            Token::LocalSocket(tag) => if self.sessions.contains_key(tag) {
                self.sessions[tag].interest(Side::Local)
            } else {
                nothing
            },
            Token::RemoteSocket(tag) => if self.sessions.contains_key(tag) {
                self.sessions[tag].interest(Side::Remote)
            } else {
                nothing
            },
        }
    }

    /// What is to be done next for one direction of the session `tag`:
    /// what the session says, and nothing for a session that is not in
    /// the table.
    pub open spec fn work(self, tag: SessionTag, direction: Direction, source_ready: bool, stalled: bool) -> Work {
        if self.sessions.contains_key(tag) {
            self.sessions[tag].work(direction, source_ready, stalled)
        } else {
            Work::Wait
        }
    }

    /// What the caller is told about an event for the session `tag`.
    pub open spec fn report(self, tag: SessionTag, ev: SessionEvent) -> Result<SessionUpdate, Error> {
        if !self.sessions.contains_key(tag) {
            Err(Error::NoSessionForTag(tag))
        } else {
            let session = self.sessions[tag];
            let next = session.step(ev);
            let nothing = Interest { read: false, write: false };
            if session.failure(ev) is Some {
                Ok(
                    SessionUpdate {
                        removed: true,
                        failure: session.failure(ev),
                        local: nothing,
                        remote: nothing,
                    },
                )
            } else {
                Ok(
                    SessionUpdate {
                        removed: next.shut_down(),
                        failure: None,
                        local: next.interest(Side::Local),
                        remote: next.interest(Side::Remote),
                    },
                )
            }
        }
    }
}

/// All forwarding state of the daemon.
pub struct ForwarderSessions {
    listening_ports: BTreeMap<u16, TcpForwardTarget>,
    tcp4_forwarders: HashMap<SessionTag, ForwarderSession>,
}

impl View for ForwarderSessions {
    type V = TableView;

    closed spec fn view(&self) -> TableView {
        TableView {
            listeners: self.listening_ports@,
            sessions: Map::new(
                |tag: SessionTag| self.tcp4_forwarders@.contains_key(tag),
                |tag: SessionTag| self.tcp4_forwarders@[tag]@,
            ),
        }
    }
}

fn contains_port(ports: &Vec<u16>, port: u16) -> (found: bool)
    ensures
        found == ports@.contains(port),
{
    let mut i: usize = 0;
    while i < ports.len()
        invariant
            i <= ports.len(),
            forall|j: int| 0 <= j < i ==> ports@[j] != port,
        decreases ports.len() - i,
    {
        if ports[i] == port {
            return true;
        }
        i += 1;
    }
    false
}

impl ForwarderSessions {
    /// State of a daemon that listens on nothing and forwards nothing.
    pub fn new() -> (sessions: ForwarderSessions)
        ensures
            sessions@.listeners == Map::<u16, TcpForwardTarget>::empty(),
            sessions@.sessions == Map::<SessionTag, SessionView>::empty(),
    {
        let sessions = ForwarderSessions {
            listening_ports: BTreeMap::new(),
            tcp4_forwarders: HashMap::new(),
        };
        assert(sessions@.sessions =~= Map::<SessionTag, SessionView>::empty());
        sessions
    }

    /// The ports for which listeners are to be bound before the queue is
    /// processed.
    pub fn ports_to_bind(&self, queue: &VecDeque<TcpForwardTarget>) -> (ports: Vec<u16>)
        ensures
            ports@ == wanted_ports(self@.listeners, queue@),
    {
        let mut ports: Vec<u16> = Vec::new();
        let mut i: usize = 0;
        while i < queue.len()
            invariant
                i <= queue.len(),
                ports@ == wanted_ports(self@.listeners, queue@.take(i as int)),
            decreases queue.len() - i,
        {
            let port: u16 = queue[i].port;
            proof {
                assert(queue@.take(i + 1).drop_last() =~= queue@.take(i as int));
                assert(queue@.take(i + 1).last() == queue@[i as int]);
            }
            if port >= FIRST_FORWARDABLE_PORT && !self.listening_ports.contains_key(&port)
                && !contains_port(&ports, port) {
                ports.push(port);
            }
            i += 1;
        }
        assert(queue@.take(queue.len() as int) =~= queue@);
        ports
    }

    /// Adds and removes listeners to match the latest set of targets from
    /// the control plane. `bound` holds the ports whose new listeners the
    /// caller could bind and register. The queue is emptied. Returns the
    /// listeners that are no longer wanted, for the caller to close.
    pub fn process_update_queue(
        &mut self,
        queue: &mut VecDeque<TcpForwardTarget>,
        bound: &Vec<u16>,
    ) -> (retired: BTreeMap<u16, TcpForwardTarget>)
        ensures
            final(queue)@.len() == 0,
            final(self)@.listeners == admitted(old(self)@.listeners, bound@.to_set(), old(queue)@),
            final(self)@.sessions == old(self)@.sessions,
            retired@ == old(self)@.listeners.remove_keys(final(self)@.listeners.dom()),
    {
        let mut kept: BTreeMap<u16, TcpForwardTarget> = BTreeMap::new();
        let ghost old_listeners = self.listening_ports@;
        let ghost all = queue@;
        let ghost mut done: Seq<TcpForwardTarget> = Seq::empty();
        assert(self.listening_ports@ =~= old_listeners.remove_keys(kept@.dom()));
        while queue.len() > 0
            invariant
                done + queue@ == all,
                kept@ == admitted(old_listeners, bound@.to_set(), done),
                self.listening_ports@ == old_listeners.remove_keys(kept@.dom()),
                self.tcp4_forwarders == old(self).tcp4_forwarders,
            decreases queue.len(),
        {
            let ghost before = queue@;
            let target = queue.pop_front().unwrap();
            let port: u16 = target.port;
            proof {
                let next = done.push(target);
                assert(next.drop_last() =~= done);
                assert(next + queue@ =~= done + before);
            }
            let ghost kept_before = kept@;
            if port >= FIRST_FORWARDABLE_PORT && !kept.contains_key(&port) {
                match self.listening_ports.remove(&port) {
                    Some(existing) => {
                        kept.insert(port, existing);
                    },
                    None => {
                        if contains_port(bound, port) {
                            kept.insert(port, target);
                        }
                    },
                }
            }
            proof {
                done = done.push(target);
                assert(self.listening_ports@ =~= old_listeners.remove_keys(kept@.dom()));
            }
        }
        assert(done =~= all);
        std::mem::swap(&mut self.listening_ports, &mut kept);
        kept
    }

    /// Whether the port has listeners.
    pub fn is_listening(&self, port: u16) -> (listening: bool)
        ensures
            listening == self@.listeners.contains_key(port),
    {
        self.listening_ports.contains_key(&port)
    }

    /// The target that connections to `port` are forwarded to.
    pub fn forward_target(&self, port: u16) -> (target: Result<&TcpForwardTarget, Error>)
        ensures
            match target {
                Ok(found) => self@.listeners.contains_key(port) && *found == self@.listeners[port],
                Err(error) => !self@.listeners.contains_key(port) && error
                    == Error::NoListenerForPort(port),
            },
    {
        match self.listening_ports.get(&port) {
            Some(target) => Ok(target),
            None => Err(Error::NoListenerForPort(port)),
        }
    }

    /// Concludes the rendezvous for a connection that was accepted on
    /// `port`: if the expected guest connected back in time, a new session
    /// enters the table under `tag`, in place of any session that was
    /// there under that tag. If the port has no listener, if no guest
    /// connected in time or if another guest did, the attempt fails and
    /// nothing changes: the listeners stay, and so does every session.
    pub fn accept_connection(&mut self, port: u16, tag: SessionTag, arrival: GuestArrival) -> (result:
        Result<(), Error>)
        ensures
            result == old(self)@.accept_result(port, arrival),
            final(self)@ == old(self)@.after_accept(port, tag, arrival),
    {
        let session = match self.listening_ports.get(&port) {
            Some(target) => create_forwarder_session(arrival, target),
            None => Err(Error::NoListenerForPort(port)),
        };
        match session {
            Ok(session) => {
                self.tcp4_forwarders.insert(tag, session);
                assert(self@.sessions =~= old(self)@.sessions.insert(tag, session@));
                Ok(())
            },
            Err(error) => Err(error),
        }
    }

    /// Takes the session under `tag` out of the table, for a caller that
    /// could not set its descriptors up. Returns whether there was one.
    pub fn remove_session(&mut self, tag: SessionTag) -> (removed: bool)
        ensures
            removed == old(self)@.sessions.contains_key(tag),
            final(self)@.sessions == old(self)@.sessions.remove(tag),
            final(self)@.listeners == old(self)@.listeners,
    {
        let removed = self.tcp4_forwarders.remove(&tag).is_some();
        assert(self@.sessions =~= old(self)@.sessions.remove(tag));
        removed
    }

    /// Whether a session is in the table under `tag`.
    pub fn has_session(&self, tag: SessionTag) -> (found: bool)
        ensures
            found == self@.sessions.contains_key(tag),
    {
        self.tcp4_forwarders.contains_key(&tag)
    }

    /// The session under `tag`.
    pub fn session(&self, tag: SessionTag) -> (found: Result<&ForwarderSession, Error>)
        ensures
            match found {
                Ok(session) => self@.sessions.contains_key(tag) && session@ == self@.sessions[tag],
                Err(error) => !self@.sessions.contains_key(tag) && error == Error::NoSessionForTag(
                    tag,
                ),
            },
    {
        match self.tcp4_forwarders.get(&tag) {
            Some(session) => Ok(session),
            None => Err(Error::NoSessionForTag(tag)),
        }
    }

    /// The readiness to watch for a token, as the state stands now.
    pub fn interest_of(&self, token: Token) -> (interest: Interest)
        ensures
            interest == self@.interest_of(token),
    {
        let nothing = Interest { read: false, write: false };
        match token {
            Token::UpdatePorts => Interest { read: true, write: false },
            Token::Ipv4Listener(port) => Interest { read: self.is_listening(port), write: false },
            Token::Ipv6Listener(port) => Interest { read: self.is_listening(port), write: false },
            Token::LocalSocket(tag) => match self.tcp4_forwarders.get(&tag) {
                Some(session) => session.interest(Side::Local),
                None => nothing,
            },
            Token::RemoteSocket(tag) => match self.tcp4_forwarders.get(&tag) {
                Some(session) => session.interest(Side::Remote),
                None => nothing,
            },
        }
    }

    /// What to do next for one direction of the session `tag`.
    pub fn work(&self, tag: SessionTag, direction: Direction, source_ready: bool, stalled: bool) -> (work:
        Work)
        ensures
            work == self@.work(tag, direction, source_ready, stalled),
    {
        match self.tcp4_forwarders.get(&tag) {
            Some(session) => session.work(direction, source_ready, stalled),
            None => Work::Wait,
        }
    }

    /// Number of live sessions.
    pub fn session_count(&self) -> (count: usize)
        ensures
            count == self@.sessions.dom().len(),
    {
        assert(self@.sessions.dom() =~= self.tcp4_forwarders@.dom());
        self.tcp4_forwarders.len()
    }

    /// Puts a session back after an event, or leaves it out if the event
    /// tore it down.
    fn settle(
        &mut self,
        tag: SessionTag,
        session: ForwarderSession,
        outcome: Result<bool, ForwarderError>,
        Ghost(before): Ghost<TableView>,
        Ghost(ev): Ghost<SessionEvent>,
    ) -> (update: SessionUpdate)
        requires
            before.sessions.contains_key(tag),
            old(self)@.sessions == before.sessions.remove(tag),
            old(self)@.listeners == before.listeners,
            session@ == before.sessions[tag].step(ev),
            outcome is Err <==> before.sessions[tag].failure(ev) is Some,
            outcome matches Err(error) ==> before.sessions[tag].failure(ev) == Some(error),
        ensures
            final(self)@ == before.after(tag, ev),
            Ok::<SessionUpdate, Error>(update) == before.report(tag, ev),
    {
        let nothing = Interest { read: false, write: false };
        match outcome {
            Err(error) => {
                assert(self@.sessions =~= before.after(tag, ev).sessions);
                SessionUpdate { removed: true, failure: Some(error), local: nothing, remote: nothing }
            },
            Ok(_) => {
                let update = SessionUpdate {
                    removed: session.is_shut_down(),
                    failure: None,
                    local: session.interest(Side::Local),
                    remote: session.interest(Side::Remote),
                };
                if !update.removed {
                    self.tcp4_forwarders.insert(tag, session);
                    assert forall|k: SessionTag|
                        self@.sessions.contains_key(k) implies #[trigger] before.sessions.insert(
                        tag,
                        session@,
                    ).contains_key(k) && self@.sessions[k] == before.sessions.insert(
                        tag,
                        session@,
                    )[k] by {
                        if k != tag {
                            assert(old(self)@.sessions.contains_key(k));
                            assert(old(self)@.sessions[k] == old(self).tcp4_forwarders@[k]@);
                        }
                    }
                    assert forall|k: SessionTag| #[trigger]
                        before.sessions.insert(tag, session@).contains_key(
                            k,
                        ) implies self@.sessions.contains_key(k) by {
                        if k != tag {
                            assert(old(self)@.sessions.contains_key(k));
                        }
                    }
                    assert(self@.sessions =~= before.sessions.insert(tag, session@));
                } else {
                    assert(self@.sessions =~= before.sessions.remove(tag));
                }
                update
            },
        }
    }

    /// Brings the outcome of a read on the source of `direction` to the
    /// session `tag`.
    pub fn on_read(&mut self, tag: SessionTag, direction: Direction, outcome: ReadOutcome) -> (result:
        Result<SessionUpdate, Error>)
        ensures
            final(self)@ == old(self)@.after(tag, SessionEvent::Read(direction, outcome@)),
            result == old(self)@.report(tag, SessionEvent::Read(direction, outcome@)),
    {
        let ghost before = self@;
        let ghost ev = SessionEvent::Read(direction, outcome@);
        match self.tcp4_forwarders.remove(&tag) {
            None => {
                assert(self@.sessions =~= before.sessions);
                Err(Error::NoSessionForTag(tag))
            },
            Some(session) => {
                let mut session = session;
                assert(self@.sessions =~= before.sessions.remove(tag));
                let outcome = session.on_read(direction, outcome);
                Ok(self.settle(tag, session, outcome, Ghost(before), Ghost(ev)))
            },
        }
    }

    /// Brings the outcome of a write to the destination of `direction` to
    /// the session `tag`.
    pub fn on_write(&mut self, tag: SessionTag, direction: Direction, outcome: WriteOutcome) -> (result:
        Result<SessionUpdate, Error>)
        ensures
            final(self)@ == old(self)@.after(tag, SessionEvent::Write(direction, outcome@)),
            result == old(self)@.report(tag, SessionEvent::Write(direction, outcome@)),
    {
        let ghost before = self@;
        let ghost ev = SessionEvent::Write(direction, outcome@);
        match self.tcp4_forwarders.remove(&tag) {
            None => {
                assert(self@.sessions =~= before.sessions);
                Err(Error::NoSessionForTag(tag))
            },
            Some(session) => {
                let mut session = session;
                assert(self@.sessions =~= before.sessions.remove(tag));
                let outcome = session.on_write(direction, outcome);
                Ok(self.settle(tag, session, outcome, Ghost(before), Ghost(ev)))
            },
        }
    }

    /// Brings the outcome of a read on the local socket of the session
    /// `tag`.
    pub fn forward_from_local(&mut self, tag: SessionTag, outcome: ReadOutcome) -> (result: Result<
        SessionUpdate,
        Error,
    >)
        ensures
            final(self)@ == old(self)@.after(
                tag,
                SessionEvent::Read(Direction::LocalToRemote, outcome@),
            ),
            result == old(self)@.report(tag, SessionEvent::Read(Direction::LocalToRemote, outcome@)),
    {
        self.on_read(tag, Direction::LocalToRemote, outcome)
    }

    /// Brings the outcome of a read on the remote socket of the session
    /// `tag`.
    pub fn forward_from_remote(&mut self, tag: SessionTag, outcome: ReadOutcome) -> (result: Result<
        SessionUpdate,
        Error,
    >)
        ensures
            final(self)@ == old(self)@.after(
                tag,
                SessionEvent::Read(Direction::RemoteToLocal, outcome@),
            ),
            result == old(self)@.report(tag, SessionEvent::Read(Direction::RemoteToLocal, outcome@)),
    {
        self.on_read(tag, Direction::RemoteToLocal, outcome)
    }
}

} // verus!
