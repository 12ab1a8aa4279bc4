//! What holds of the session table over any sequence of events: a session
//! changes only through its own events, a failure removes the session it
//! happened in and no other, and the listeners follow the targets that the
//! control plane last sent.

use vstd::prelude::*;
use crate::forwarder::{Direction, SessionEvent};
use crate::rendezvous::GuestArrival;
use crate::sessions::{
    admitted, wanted_ports, Error, TableView, TcpForwardTarget, FIRST_FORWARDABLE_PORT,
};
use crate::stream::Side;
use crate::token::{SessionTag, Token};
use crate::delivery::{byte_fidelity, failure_free, given_all, run, taken_all};

verus! {

/// The table after a sequence of events, each for the session whose tag
/// comes with it, oldest first.
pub open spec fn table_run(table: TableView, events: Seq<(SessionTag, SessionEvent)>) -> TableView
    decreases events.len(),
{
    if events.len() == 0 {
        table
    } else {
        table_run(table, events.drop_last()).after(events.last().0, events.last().1)
    }
}

/// The events of one session among those of all sessions, in order.
pub open spec fn events_of(events: Seq<(SessionTag, SessionEvent)>, tag: SessionTag) -> Seq<SessionEvent>
    decreases events.len(),
{
    if events.len() == 0 {
        Seq::empty()
    } else if events.last().0 == tag {
        events_of(events.drop_last(), tag).push(events.last().1)
    } else {
        events_of(events.drop_last(), tag)
    }
}

/// Some event of the sequence tore the session down: it raised a failure,
/// or it closed the second direction.
pub open spec fn torn_down(session: crate::forwarder::SessionView, events: Seq<SessionEvent>) -> bool
    decreases events.len(),
{
    events.len() > 0 && {
        ||| torn_down(session, events.drop_last())
        ||| run(session, events.drop_last()).failure(events.last()) is Some
        ||| run(session, events).shut_down()
    }
}

/// Some target of the queue names the port.
pub open spec fn mentions(queue: Seq<TcpForwardTarget>, port: u16) -> bool {
    exists|i: int| 0 <= i < queue.len() && (#[trigger] queue[i]).port == port
}

/// The target at `i` is the first of the queue that names the port.
pub open spec fn first_mention(queue: Seq<TcpForwardTarget>, port: u16, i: int) -> bool {
    &&& 0 <= i < queue.len()
    &&& queue[i].port == port
    &&& forall|j: int| 0 <= j < i ==> (#[trigger] queue[j]).port != port
}

/// An event for one session leaves every other session, and the
/// listeners, as they were.
pub proof fn other_sessions_untouched(table: TableView, tag: SessionTag, event: SessionEvent, other: SessionTag)
    requires
        other != tag,
    ensures
        table.after(tag, event).sessions.contains_key(other) == table.sessions.contains_key(other),
        table.sessions.contains_key(other) ==> table.after(tag, event).sessions[other]
            == table.sessions[other],
        table.after(tag, event).listeners == table.listeners,
{
}

/// A failure in a session removes that session from the table, and so
/// does the closing of its second direction; any other event keeps it in.
pub proof fn failure_removes_session(table: TableView, tag: SessionTag, event: SessionEvent)
    requires
        table.sessions.contains_key(tag),
    ensures
        table.after(tag, event).sessions.contains_key(tag) <==> table.sessions[tag].failure(event)
            is None && !table.sessions[tag].step(event).shut_down(),
        table.after(tag, event).sessions.contains_key(tag) ==> table.after(tag, event).sessions[tag]
            == table.sessions[tag].step(event),
{
}

/// The registrations follow the table: the sockets of a session are
/// watched only while the session is in the table, a session that an
/// event removed is watched for nothing, and the report of an event names
/// the readiness that its two sockets are watched for afterwards.
pub proof fn registrations_follow_table(table: TableView, tag: SessionTag, event: SessionEvent)
    ensures
        !table.sessions.contains_key(tag) ==> table.interest_of(Token::LocalSocket(tag)).spec_is_none()
            && table.interest_of(Token::RemoteSocket(tag)).spec_is_none(),
        table.report(tag, event) matches Ok(update) ==> {
            &&& update.removed == !table.after(tag, event).sessions.contains_key(tag)
            &&& update.local == table.after(tag, event).interest_of(Token::LocalSocket(tag))
            &&& update.remote == table.after(tag, event).interest_of(Token::RemoteSocket(tag))
        },
        forall|other: SessionTag|
            other != tag ==> #[trigger] table.after(tag, event).interest_of(
                Token::LocalSocket(other),
            ) == table.interest_of(Token::LocalSocket(other)) && table.after(
                tag,
                event,
            ).interest_of(Token::RemoteSocket(other)) == table.interest_of(
                Token::RemoteSocket(other),
            ),
{
}

/// Whatever happens to other sessions, a session of the table is where its
/// own events alone have brought it: in the table and in the state they
/// lead to, or out of the table once one of them has torn it down.
pub proof fn sessions_evolve_alone(
    table: TableView,
    events: Seq<(SessionTag, SessionEvent)>,
    tag: SessionTag,
)
    requires
        table.sessions.contains_key(tag),
    ensures
        table_run(table, events).sessions.contains_key(tag) <==> !torn_down(
            table.sessions[tag],
            events_of(events, tag),
        ),
        table_run(table, events).sessions.contains_key(tag) ==> table_run(
            table,
            events,
        ).sessions[tag] == run(table.sessions[tag], events_of(events, tag)),
        table_run(table, events).listeners == table.listeners,
    decreases events.len(),
{
    if events.len() > 0 {
        let prefix = events.drop_last();
        sessions_evolve_alone(table, prefix, tag);
        let own = events_of(prefix, tag);
        if events.last().0 == tag {
            assert(events_of(events, tag).drop_last() =~= own);
            assert(events_of(events, tag).last() == events.last().1);
        }
    }
}

/// Error isolation: a session that its own events have not torn down has
/// lost no byte, whatever failures the events of other sessions brought.
pub proof fn error_isolation(
    table: TableView,
    events: Seq<(SessionTag, SessionEvent)>,
    tag: SessionTag,
    direction: Direction,
)
    requires
        table.sessions.contains_key(tag),
        !torn_down(table.sessions[tag], events_of(events, tag)),
        failure_free(table.sessions[tag], events_of(events, tag), direction),
    ensures
        table_run(table, events).sessions.contains_key(tag),
        given_all(table.sessions[tag], events_of(events, tag), direction) + table_run(
            table,
            events,
        ).sessions[tag].relay(direction).pending == table.sessions[tag].relay(direction).pending
            + taken_all(table.sessions[tag], events_of(events, tag), direction),
{
    sessions_evolve_alone(table, events, tag);
    byte_fidelity(table.sessions[tag], events_of(events, tag), direction);
}

/// Rendezvous timeout: when no guest connects back in time, the attempt
/// to forward a connection that a listener accepted fails with the timeout
/// error, and the table is as before: the listener can accept the next
/// connection, and every session goes on.
pub proof fn timeout_leaves_table(table: TableView, port: u16, tag: SessionTag)
    requires
        table.listeners.contains_key(port),
    ensures
        table.accept_result(port, GuestArrival::TimedOut) == Err::<(), Error>(
            Error::VsockAcceptTimeout,
        ),
        table.after_accept(port, tag, GuestArrival::TimedOut) == table,
{
}

/// An attempt that fails, for whatever reason, leaves the table as it was;
/// one that succeeds adds one session with both directions open and
/// touches nothing else.
pub proof fn accept_changes_one_session(table: TableView, port: u16, tag: SessionTag, arrival: GuestArrival)
    ensures
        table.accept_result(port, arrival) is Err ==> table.after_accept(port, tag, arrival)
            == table,
        table.accept_result(port, arrival) is Ok ==> {
            &&& table.after_accept(port, tag, arrival).sessions.contains_key(tag)
            &&& !table.after_accept(port, tag, arrival).sessions[tag].shut_down()
            &&& table.after_accept(port, tag, arrival).sessions[tag].wf()
        },
        table.after_accept(port, tag, arrival).listeners == table.listeners,
        forall|other: SessionTag|
            other != tag ==> (#[trigger] table.after_accept(port, tag, arrival).sessions.contains_key(
                other,
            ) == table.sessions.contains_key(other)) && (table.sessions.contains_key(other)
                ==> table.after_accept(port, tag, arrival).sessions[other]
                == table.sessions[other]),
{
}

/// The listeners after an update: a port is listened on exactly if it may
/// be forwarded, the queue names it, and it either had listeners or got
/// them bound. A port that had listeners keeps its target; a new port gets
/// the first target of the queue that names it.
pub proof fn listeners_after_update(
    old_listeners: Map<u16, TcpForwardTarget>,
    bound: Set<u16>,
    queue: Seq<TcpForwardTarget>,
    port: u16,
)
    ensures
        admitted(old_listeners, bound, queue).contains_key(port) <==> port >= FIRST_FORWARDABLE_PORT
            && mentions(queue, port) && (old_listeners.contains_key(port) || bound.contains(port)),
        admitted(old_listeners, bound, queue).contains_key(port) && old_listeners.contains_key(port)
            ==> admitted(old_listeners, bound, queue)[port] == old_listeners[port],
        admitted(old_listeners, bound, queue).contains_key(port) && !old_listeners.contains_key(
            port,
        ) ==> exists|i: int|
            first_mention(queue, port, i) && admitted(old_listeners, bound, queue)[port]
                == #[trigger] queue[i],
    decreases queue.len(),
{
    if queue.len() > 0 {
        let prefix = queue.drop_last();
        let last = queue.len() - 1;
        listeners_after_update(old_listeners, bound, prefix, port);
        let before = admitted(old_listeners, bound, prefix);
        let after = admitted(old_listeners, bound, queue);
        if mentions(prefix, port) {
            let i = choose|i: int| 0 <= i < prefix.len() && (#[trigger] prefix[i]).port == port;
            assert(queue[i] == prefix[i]);
        }
        if mentions(queue, port) && queue[last].port != port {
            let i = choose|i: int| 0 <= i < queue.len() && (#[trigger] queue[i]).port == port;
            assert(prefix[i] == queue[i]);
        }
        if after.contains_key(port) && !old_listeners.contains_key(port) {
            if before.contains_key(port) {
                let i = choose|i: int|
                    first_mention(prefix, port, i) && before[port] == #[trigger] prefix[i];
                assert(queue[i] == prefix[i]);
                assert forall|j: int| 0 <= j < i implies (#[trigger] queue[j]).port != port by {
                    assert(queue[j] == prefix[j]);
                }
                assert(first_mention(queue, port, i));
            } else {
                assert(queue[last].port == port);
                assert forall|j: int| 0 <= j < last implies (#[trigger] queue[j]).port != port by {
                    assert(queue[j] == prefix[j]);
                }
                assert(first_mention(queue, port, last));
                assert(after[port] == queue[last]);
            }
        }
    }
}

/// The ports to bind before an update are those that may be forwarded,
/// that the queue names and that have no listeners yet, each once.
pub proof fn ports_to_bind_are_new(listeners: Map<u16, TcpForwardTarget>, queue: Seq<TcpForwardTarget>, port: u16)
    ensures
        wanted_ports(listeners, queue).contains(port) <==> port >= FIRST_FORWARDABLE_PORT
            && mentions(queue, port) && !listeners.contains_key(port),
        wanted_ports(listeners, queue).no_duplicates(),
    decreases queue.len(),
{
    if queue.len() > 0 {
        let prefix = queue.drop_last();
        let last = queue.len() - 1;
        ports_to_bind_are_new(listeners, prefix, port);
        let before = wanted_ports(listeners, prefix);
        let after = wanted_ports(listeners, queue);
        if mentions(prefix, port) {
            let i = choose|i: int| 0 <= i < prefix.len() && (#[trigger] prefix[i]).port == port;
            assert(queue[i] == prefix[i]);
        }
        if mentions(queue, port) && queue[last].port != port {
            let i = choose|i: int| 0 <= i < queue.len() && (#[trigger] queue[i]).port == port;
            assert(prefix[i] == queue[i]);
        }
        if after.len() > before.len() {
            assert(after == before.push(queue[last].port));
            assert(after[before.len() as int] == queue[last].port);
            if before.contains(port) {
                let k = choose|k: int| 0 <= k < before.len() && before[k] == port;
                assert(after[k] == port);
            }
            if after.contains(port) && port != queue[last].port {
                let k = choose|k: int| 0 <= k < after.len() && after[k] == port;
                assert(before[k] == port);
            }
        }
    }
}

} // verus!
