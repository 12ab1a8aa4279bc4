//! What holds of a session over any sequence of events: every byte taken
//! from a source reaches the destination once and in order, the two
//! directions do not disturb each other, a direction ends only after its
//! own source has ended, and a slow destination neither loses bytes nor
//! lets the buffer grow past two chunks.

use vstd::prelude::*;
use crate::forwarder::{Direction, DirectionState, ForwarderError, SessionEvent, SessionView, Work};
use crate::stream::{ReadEvent, SocketView, WriteEvent};

verus! {

/// The direction in which a failure happened.
pub open spec fn failed_direction(error: ForwarderError) -> Direction {
    match error {
        ForwarderError::ReadFailure(direction) => direction,
        ForwarderError::WriteFailure(direction) => direction,
    }
}

/// The session after a sequence of events, oldest first.
pub open spec fn run(session: SessionView, events: Seq<SessionEvent>) -> SessionView
    decreases events.len(),
{
    if events.len() == 0 {
        session
    } else {
        run(session, events.drop_last()).step(events.last())
    }
}

/// All bytes that the events took from the source of `direction`, in the
/// order in which they were read.
pub open spec fn taken_all(session: SessionView, events: Seq<SessionEvent>, direction: Direction) -> Seq<u8>
    decreases events.len(),
{
    if events.len() == 0 {
        Seq::empty()
    } else {
        taken_all(session, events.drop_last(), direction) + run(session, events.drop_last()).taken(
            events.last(),
            direction,
        )
    }
}

/// All bytes that the events handed to the destination of `direction`, in
/// the order in which they were written.
pub open spec fn given_all(session: SessionView, events: Seq<SessionEvent>, direction: Direction) -> Seq<u8>
    decreases events.len(),
{
    if events.len() == 0 {
        Seq::empty()
    } else {
        given_all(session, events.drop_last(), direction) + run(session, events.drop_last()).given(
            events.last(),
            direction,
        )
    }
}

/// None of the events raised a failure in `direction`.
pub open spec fn failure_free(session: SessionView, events: Seq<SessionEvent>, direction: Direction) -> bool
    decreases events.len(),
{
    events.len() == 0 || {
        &&& failure_free(session, events.drop_last(), direction)
        &&& match run(session, events.drop_last()).failure(events.last()) {
            Some(error) => failed_direction(error) != direction,
            None => true,
        }
    }
}

/// Some event reports the end of the stream on the source of `direction`.
pub open spec fn end_seen(events: Seq<SessionEvent>, direction: Direction) -> bool {
    exists|i: int|
        0 <= i < events.len() && (#[trigger] events[i] matches SessionEvent::Read(d, read) && d
            == direction && read.is_end())
}

/// Every read returned no more bytes than the session had asked for.
pub open spec fn within_budget(session: SessionView, events: Seq<SessionEvent>) -> bool
    decreases events.len(),
{
    events.len() == 0 || {
        &&& within_budget(session, events.drop_last())
        &&& match events.last() {
            SessionEvent::Read(direction, read) => read.bytes().len() <= run(
                session,
                events.drop_last(),
            ).read_budget(direction),
            _ => true,
        }
    }
}

/// Successful writes to the destination of `direction`, one for each count.
pub open spec fn writes(direction: Direction, counts: Seq<nat>) -> Seq<SessionEvent> {
    Seq::new(counts.len(), |i: int| SessionEvent::Write(direction, WriteEvent::Written(counts[i])))
}

/// A new session is in a reachable state.
pub proof fn start_is_wf(local: SocketView, remote: SocketView, chunk_size: nat)
    requires
        chunk_size > 0,
    ensures
        SessionView::start(local, remote, chunk_size).wf(),
{
}

/// No event leads out of the reachable states, and none changes the chunk
/// size or the transport of an endpoint.
pub proof fn step_preserves_wf(session: SessionView, event: SessionEvent)
    requires
        session.wf(),
    ensures
        session.step(event).wf(),
        session.step(event).chunk_size == session.chunk_size,
        session.step(event).local.kind == session.local.kind,
        session.step(event).remote.kind == session.remote.kind,
{
}

/// A sequence of events leads from a reachable state to a reachable state.
pub proof fn run_preserves_wf(session: SessionView, events: Seq<SessionEvent>)
    requires
        session.wf(),
    ensures
        run(session, events).wf(),
        run(session, events).chunk_size == session.chunk_size,
    decreases events.len(),
{
    if events.len() > 0 {
        run_preserves_wf(session, events.drop_last());
        step_preserves_wf(run(session, events.drop_last()), events.last());
    }
}

/// An event in one direction leaves the other direction as it was: its
/// state and every byte buffered for it.
pub proof fn directions_independent(session: SessionView, event: SessionEvent)
    ensures
        session.step(event).relay(event.direction().spec_reverse()) == session.relay(
            event.direction().spec_reverse(),
        ),
{
}

/// One event conserves the bytes of a direction: what was buffered plus
/// what the event took is what the event gave plus what is buffered now,
/// unless the event is a failure in that direction.
pub proof fn step_conserves(session: SessionView, event: SessionEvent, direction: Direction)
    requires
        match session.failure(event) {
            Some(error) => failed_direction(error) != direction,
            None => true,
        },
    ensures
        session.given(event, direction) + session.step(event).relay(direction).pending
            == session.relay(direction).pending + session.taken(event, direction),
{
    let before = session.relay(direction);
    let after = session.step(event).relay(direction);
    match event {
        SessionEvent::Read(d, read) => {
            if d == direction {
                assert(before.pending + Seq::<u8>::empty() =~= before.pending);
                assert(Seq::<u8>::empty() + after.pending =~= after.pending);
            } else {
                assert(after == before);
                assert(Seq::<u8>::empty() + before.pending =~= before.pending + Seq::<u8>::empty());
            }
        },
        SessionEvent::Write(d, write) => {
            if d == direction {
                let k = before.accepted(write) as int;
                assert(before.pending.take(k) + before.pending.skip(k) =~= before.pending);
                assert(before.pending + Seq::<u8>::empty() =~= before.pending);
            } else {
                assert(after == before);
                assert(Seq::<u8>::empty() + before.pending =~= before.pending + Seq::<u8>::empty());
            }
        },
    }
}

/// Byte fidelity, for either direction: over any sequence of events without
/// a failure in that direction, the bytes handed to the destination,
/// followed by the bytes still buffered, are exactly the bytes that were
/// buffered at the start followed by the bytes taken from the source.
/// Nothing is lost, repeated or reordered.
pub proof fn byte_fidelity(session: SessionView, events: Seq<SessionEvent>, direction: Direction)
    requires
        failure_free(session, events, direction),
    ensures
        given_all(session, events, direction) + run(session, events).relay(direction).pending
            == session.relay(direction).pending + taken_all(session, events, direction),
    decreases events.len(),
{
    let start = session.relay(direction).pending;
    if events.len() == 0 {
        assert(Seq::<u8>::empty() + start =~= start + Seq::<u8>::empty());
    } else {
        let prefix = events.drop_last();
        let middle = run(session, prefix);
        byte_fidelity(session, prefix, direction);
        step_conserves(middle, events.last(), direction);
        let g0 = given_all(session, prefix, direction);
        let g1 = middle.given(events.last(), direction);
        let t0 = taken_all(session, prefix, direction);
        let t1 = middle.taken(events.last(), direction);
        let p1 = middle.relay(direction).pending;
        let p2 = run(session, events).relay(direction).pending;
        assert((g0 + g1) + p2 =~= g0 + (g1 + p2));
        assert(g0 + (p1 + t1) =~= (g0 + p1) + t1);
        assert((start + t0) + t1 =~= start + (t0 + t1));
    }
}

/// Once a direction of a new session has closed without a failure, its
/// destination has been handed exactly the bytes that were read from its
/// source, in order.
pub proof fn closed_direction_delivered_everything(
    local: SocketView,
    remote: SocketView,
    chunk_size: nat,
    events: Seq<SessionEvent>,
    direction: Direction,
)
    requires
        chunk_size > 0,
        failure_free(SessionView::start(local, remote, chunk_size), events, direction),
        run(SessionView::start(local, remote, chunk_size), events).relay(direction).state
            == DirectionState::Closed,
    ensures
        given_all(SessionView::start(local, remote, chunk_size), events, direction) == taken_all(
            SessionView::start(local, remote, chunk_size),
            events,
            direction,
        ),
{
    let session = SessionView::start(local, remote, chunk_size);
    run_preserves_wf(session, events);
    byte_fidelity(session, events, direction);
    let given = given_all(session, events, direction);
    let taken = taken_all(session, events, direction);
    assert(given + Seq::<u8>::empty() =~= given);
    assert(Seq::<u8>::empty() + taken =~= taken);
}

/// Bytes read at the local endpoint reach the remote endpoint intact.
pub proof fn local_bytes_reach_remote(session: SessionView, events: Seq<SessionEvent>)
    requires
        failure_free(session, events, Direction::LocalToRemote),
    ensures
        given_all(session, events, Direction::LocalToRemote) + run(
            session,
            events,
        ).local_to_remote.pending == session.local_to_remote.pending + taken_all(
            session,
            events,
            Direction::LocalToRemote,
        ),
{
    byte_fidelity(session, events, Direction::LocalToRemote);
}

/// Bytes read at the remote endpoint reach the local endpoint intact: the
/// same law with the roles of the two endpoints exchanged.
pub proof fn remote_bytes_reach_local(session: SessionView, events: Seq<SessionEvent>)
    requires
        failure_free(session, events, Direction::RemoteToLocal),
    ensures
        given_all(session, events, Direction::RemoteToLocal) + run(
            session,
            events,
        ).remote_to_local.pending == session.remote_to_local.pending + taken_all(
            session,
            events,
            Direction::RemoteToLocal,
        ),
{
    byte_fidelity(session, events, Direction::RemoteToLocal);
}

/// A direction that was open leaves that state without a failure only when
/// a read has reported the end of its own source.
pub proof fn closes_only_after_end(session: SessionView, events: Seq<SessionEvent>, direction: Direction)
    requires
        session.relay(direction).state == DirectionState::Open,
        failure_free(session, events, direction),
        run(session, events).relay(direction).state != DirectionState::Open,
    ensures
        end_seen(events, direction),
    decreases events.len(),
{
    if events.len() > 0 {
        let prefix = events.drop_last();
        let middle = run(session, prefix);
        let last = events.len() - 1;
        if middle.relay(direction).state != DirectionState::Open {
            closes_only_after_end(session, prefix, direction);
            let i = choose|i: int|
                0 <= i < prefix.len() && (#[trigger] prefix[i] matches SessionEvent::Read(d, read)
                    && d == direction && read.is_end());
            assert(events[i] == prefix[i]);
        } else {
            assert(events[last] == events.last());
            match events.last() {
                SessionEvent::Read(d, read) => {
                    assert(d == direction && read.is_end());
                },
                SessionEvent::Write(d, write) => {
                    assert(middle.step(events.last()).relay(direction).state
                        == DirectionState::Open);
                },
            }
        }
    }
}

/// Some event raised a failure in `direction`.
pub open spec fn failure_seen(session: SessionView, events: Seq<SessionEvent>, direction: Direction) -> bool {
    !failure_free(session, events, direction)
}

/// A direction is done only for a reason: if a direction that was open is
/// closed, then its source has ended or a failure happened in it; and in
/// every reachable state a closed direction holds no bytes, so that after
/// the end of the source everything buffered was written.
pub proof fn done_only_when_flushed_or_failed(
    session: SessionView,
    events: Seq<SessionEvent>,
    direction: Direction,
)
    requires
        session.wf(),
        session.relay(direction).state == DirectionState::Open,
        run(session, events).relay(direction).state == DirectionState::Closed,
    ensures
        end_seen(events, direction) || failure_seen(session, events, direction),
        run(session, events).relay(direction).pending.len() == 0,
{
    run_preserves_wf(session, events);
    if failure_free(session, events, direction) {
        closes_only_after_end(session, events, direction);
    }
}

/// Half-close: when the source of one direction ends while the other
/// direction is open, the other direction stays open with every byte that
/// is buffered for it, goes on wanting what it wanted, and the session is
/// not shut down.
pub proof fn half_close_keeps_relaying(session: SessionView, direction: Direction, read: ReadEvent)
    requires
        session.wf(),
        read.is_end(),
        session.relay(direction.spec_reverse()).state == DirectionState::Open,
    ensures
        session.after_read(direction, read).relay(direction.spec_reverse()) == session.relay(
            direction.spec_reverse(),
        ),
        session.after_read(direction, read).wants_read(direction.spec_reverse())
            == session.wants_read(direction.spec_reverse()),
        session.after_read(direction, read).wants_write(direction.spec_reverse())
            == session.wants_write(direction.spec_reverse()),
        !session.after_read(direction, read).shut_down(),
        session.after_read(direction, read).failure(
            SessionEvent::Read(direction.spec_reverse(), ReadEvent::WouldBlock),
        ) is None,
{
}

/// Half-close: a session whose two directions were open is shut down
/// without a failure only after both sources have ended. The end of one
/// source alone leaves the other direction relaying.
pub proof fn shut_down_needs_both_ends(session: SessionView, events: Seq<SessionEvent>)
    requires
        session.local_to_remote.state == DirectionState::Open,
        session.remote_to_local.state == DirectionState::Open,
        failure_free(session, events, Direction::LocalToRemote),
        failure_free(session, events, Direction::RemoteToLocal),
        run(session, events).shut_down(),
    ensures
        end_seen(events, Direction::LocalToRemote),
        end_seen(events, Direction::RemoteToLocal),
{
    closes_only_after_end(session, events, Direction::LocalToRemote);
    closes_only_after_end(session, events, Direction::RemoteToLocal);
}

/// While the reads stay within the budget that the session gives, the
/// buffer of a direction never holds more than two chunks.
pub proof fn buffer_stays_bounded(session: SessionView, events: Seq<SessionEvent>, direction: Direction)
    requires
        within_budget(session, events),
        session.relay(direction).pending.len() <= 2 * session.chunk_size,
    ensures
        run(session, events).relay(direction).pending.len() <= 2 * session.chunk_size,
        run(session, events).chunk_size == session.chunk_size,
    decreases events.len(),
{
    if events.len() > 0 {
        buffer_stays_bounded(session, events.drop_last(), direction);
    }
}

/// A session in a reachable state can always go on: a direction that is
/// not closed wants its source read or its destination written to, and a
/// draining one wants the latter. A write that stalls changes nothing, so
/// that the bytes wait for the destination to be ready.
pub proof fn live_direction_wants_work(session: SessionView, direction: Direction, write: WriteEvent)
    requires
        session.wf(),
    ensures
        session.relay(direction).state != DirectionState::Closed ==> session.wants_read(direction)
            || session.wants_write(direction),
        session.relay(direction).state == DirectionState::Draining ==> session.wants_write(
            direction,
        ),
        write.stalls() ==> session.after_write(direction, write) == session && session.failure(
            SessionEvent::Write(direction, write),
        ) is None,
{
    if write.stalls() {
        let relay = session.relay(direction);
        assert(relay.pending.skip(0) =~= relay.pending);
        assert(relay.after_write(write) == relay);
    }
}

/// The work for a direction follows what the session wants: a read is
/// asked for only of a source that is ready and wanted, and for one whole
/// chunk; a write only while bytes are pending; and after a read, or a
/// write that stalled, the same work is not asked for again.
pub proof fn work_follows_wants(session: SessionView, direction: Direction, source_ready: bool, stalled: bool)
    requires
        session.chunk_size <= usize::MAX,
    ensures
        session.work(direction, source_ready, stalled) matches Work::Read(budget) ==> source_ready
            && budget == session.read_budget(direction) && budget > 0,
        session.work(direction, source_ready, stalled) == Work::Write ==> session.wants_write(
            direction,
        ) && !stalled,
        session.work(direction, source_ready, stalled) == Work::Wait ==> !(source_ready
            && session.wants_read(direction)) && (stalled || !session.wants_write(direction)),
        !(session.work(direction, false, stalled) is Read),
        session.work(direction, false, true) == Work::Wait,
{
}

/// What successful writes do to a direction: each one that takes at least
/// one byte shortens the buffer, none takes or fails anything, and the
/// direction closes exactly when a draining buffer runs empty.
pub proof fn writes_make_progress(session: SessionView, direction: Direction, counts: Seq<nat>)
    requires
        session.wf(),
        forall|i: int| 0 <= i < counts.len() ==> #[trigger] counts[i] >= 1,
    ensures
        failure_free(session, writes(direction, counts), direction),
        taken_all(session, writes(direction, counts), direction) == Seq::<u8>::empty(),
        run(session, writes(direction, counts)).relay(direction).pending.len() + counts.len()
            <= session.relay(direction).pending.len() || run(
            session,
            writes(direction, counts),
        ).relay(direction).pending.len() == 0,
        run(session, writes(direction, counts)).relay(direction).state == (if session.relay(
            direction,
        ).state == DirectionState::Draining && run(session, writes(direction, counts)).relay(
            direction,
        ).pending.len() == 0 {
            DirectionState::Closed
        } else {
            session.relay(direction).state
        }),
    decreases counts.len(),
{
    let events = writes(direction, counts);
    if counts.len() > 0 {
        let shorter = counts.drop_last();
        assert(events.drop_last() =~= writes(direction, shorter));
        writes_make_progress(session, direction, shorter);
        run_preserves_wf(session, events.drop_last());
        assert(events.last() == SessionEvent::Write(
            direction,
            WriteEvent::Written(counts[counts.len() - 1]),
        ));
        assert(Seq::<u8>::empty() + Seq::<u8>::empty() =~= Seq::<u8>::empty());
    }
}

/// Partial writes converge: however few bytes the destination takes at a
/// time, as long as it takes at least one per write, as many writes as
/// there are buffered bytes empty the buffer; the destination has then
/// received exactly those bytes, and a draining direction is closed.
pub proof fn partial_writes_converge(session: SessionView, direction: Direction, counts: Seq<nat>)
    requires
        session.wf(),
        forall|i: int| 0 <= i < counts.len() ==> #[trigger] counts[i] >= 1,
        counts.len() >= session.relay(direction).pending.len(),
    ensures
        run(session, writes(direction, counts)).relay(direction).pending.len() == 0,
        given_all(session, writes(direction, counts), direction) == session.relay(direction).pending,
        session.relay(direction).state == DirectionState::Draining ==> run(
            session,
            writes(direction, counts),
        ).relay(direction).state == DirectionState::Closed,
{
    let events = writes(direction, counts);
    writes_make_progress(session, direction, counts);
    byte_fidelity(session, events, direction);
    let given = given_all(session, events, direction);
    let start = session.relay(direction).pending;
    assert(run(session, events).relay(direction).pending =~= Seq::<u8>::empty());
    assert(given + Seq::<u8>::empty() =~= given);
    assert(start + Seq::<u8>::empty() =~= start);
}

} // verus!
