//! Deadlines: from when they count, and how long they are.

use crate::broker::handler;
use crate::broker::handler::{IoEvent, Phase, ReadEvent, Session, Step};
use crate::codec::types::MqttPacket;
use crate::connection;
use crate::connection::ConnectionState;
use crate::laws::connect;
use crate::laws::served;
use crate::record::clock::Clock;
use std::time::Instant;
use vstd::prelude::*;

verus! {

/// What is left of an allowance and what has passed make up the whole of it. Nothing is
/// left of one that has passed.
pub proof fn law_what_is_left_and_what_passed_make_the_whole(
    allowance_ms: u64,
    elapsed_nanos: u128,
    r: u128,
)
    requires
        call_ensures(handler::remaining, (allowance_ms, elapsed_nanos), r),
    ensures
        elapsed_nanos <= 1_000_000 * allowance_ms ==> r + elapsed_nanos == 1_000_000 * allowance_ms,
        elapsed_nanos > 1_000_000 * allowance_ms ==> r == 0,
{
}

/// A session that serves its client may stay silent for the time that its terms say, from
/// its last packet. Before that there is the time for the handshake, from its start.
pub proof fn law_deadlines_follow_the_phase(session: Session, r: (u64, Instant))
    requires
        call_ensures(Session::allowance, (&session,), r),
    ensures
        r == match session.phase {
            Phase::Serving(terms) | Phase::Replying(terms, _) | Phase::Disconnecting(terms, _) => (
                terms.idle_timeout_ms,
                session.state.last_packet_time,
            ),
            _ => (session.handshake_budget_ms, session.started_at),
        },
{
}

/// The time that a session has left is read off the clock once, from when its deadline
/// counts, and is the deadline less what the clock told.
pub proof fn law_time_left_is_read_off_the_clock(
    session: Session,
    clock: &mut Clock,
    r: u128,
    allowance: (u64, Instant),
    elapsed_nanos: u128,
)
    requires
        call_ensures(Session::remaining_by, (&session, clock), r),
        call_ensures(Session::allowance, (&session,), allowance),
        elapsed_nanos == final(clock).readings().last().1,
    ensures
        final(clock).readings() == old(clock).readings().push((allowance.1, elapsed_nanos)),
        final(clock).told() == old(clock).told(),
        r == if elapsed_nanos < 1_000_000 * allowance.0 {
            1_000_000 * allowance.0 - elapsed_nanos
        } else {
            0
        },
{
}

/// A session begins with nothing known of its client but the address, with the whole of
/// its handshake ahead of it, and with that counting from now.
pub proof fn law_sessions_begin_afresh(
    peer_addr: String,
    connection_timeout_secs: u64,
    idle_timeout_secs: u64,
    at: Instant,
    r: Session,
)
    requires
        call_ensures(
            Session::begun_at,
            (peer_addr, connection_timeout_secs, idle_timeout_secs, at),
            r,
        ),
    ensures
        r.phase is Detecting,
        r.peer_addr == peer_addr,
        r.handshake_budget_ms == 1000 * connect::at_most_a_year(connection_timeout_secs),
        r.idle_timeout_secs == idle_timeout_secs,
        r.started_at == at,
        r.state.client_id is None,
        r.state.keep_alive == 60,
        r.state.last_packet_time == at,
{
}

/// A session that begins by a clock begins at the time that the clock told, once.
pub proof fn law_sessions_begin_by_the_clock(
    clock: &mut Clock,
    peer_addr: String,
    connection_timeout_secs: u64,
    idle_timeout_secs: u64,
    r: Session,
    own: Session,
)
    requires
        call_ensures(
            Session::new_by,
            (clock, peer_addr, connection_timeout_secs, idle_timeout_secs),
            r,
        ),
        call_ensures(Session::new, (peer_addr, connection_timeout_secs, idle_timeout_secs), own),
    ensures
        final(clock).told() == old(clock).told().push(r.started_at),
        final(clock).readings() == old(clock).readings(),
        r.state.last_packet_time == r.started_at,
        own.state.last_packet_time == own.started_at,
        forall|s: Session|
            s == r || s == own ==> {
                &&& (#[trigger] s.phase) is Detecting
                &&& s.peer_addr == peer_addr
                &&& s.handshake_budget_ms == 1000 * connect::at_most_a_year(
                    connection_timeout_secs,
                )
                &&& s.idle_timeout_secs == idle_timeout_secs
                &&& s.state.client_id is None
                &&& s.state.keep_alive == 60
            },
{
}

/// A packet sets the clock of a session's silence to when it came, and nothing else does.
/// Nothing that comes in a session changes who the client is.
pub proof fn law_silence_counts_from_the_last_packet(
    session: &mut Session,
    event: IoEvent,
    at: Instant,
    step: Step,
)
    requires
        call_ensures(Session::step_at, (session, event, at), step),
        old(session).phase is Serving || old(session).phase is Replying || old(
            session,
        ).phase is Disconnecting,
    ensures
        final(session).state.client_id == old(session).state.client_id,
        final(session).state.keep_alive == old(session).state.keep_alive,
        final(session).state.last_packet_time == if event matches IoEvent::Packet(
            ReadEvent::Item(_),
        ) {
            at
        } else {
            old(session).state.last_packet_time
        },
{
}

/// The first silence of a session counts from when its CONNECT came, not from when the
/// CONNACK was flushed.
pub proof fn law_first_silence_counts_from_the_first_packet(
    session: &mut Session,
    first: MqttPacket,
    at: Instant,
    step: Step,
)
    requires
        call_ensures(
            Session::step_at,
            (session, IoEvent::Packet(ReadEvent::Item(first)), at),
            step,
        ),
        old(session).phase is Connecting,
    ensures
        final(session).phase matches Phase::Accepting(_, _, _, received_at) ==> received_at == at,
        final(session).state == old(session).state,
{
}

/// A session that goes on by a clock reads it once, and goes on at the time that it told.
pub proof fn law_steps_are_taken_by_the_clock(
    session: &mut Session,
    clock: &mut Clock,
    event: IoEvent,
    step: Step,
)
    requires
        call_ensures(Session::step_by, (session, clock, event), step),
    ensures
        final(clock).told().len() == old(clock).told().len() + 1,
        final(clock).told().drop_last() == old(clock).told(),
        final(clock).readings() == old(clock).readings(),
        (old(session).phase is Serving && event is Packet && event->Packet_0 is Item)
            ==> final(session).state.last_packet_time == final(clock).told().last(),
        final(session).phase matches Phase::Accepting(_, _, _, received_at) ==> received_at
            == final(clock).told().last(),
{
}

/// Nothing that happens changes what was configured, who is at the other end, or when the
/// handshake began: no step of it buys the client time.
pub proof fn law_settings_stand(session: &mut Session, event: IoEvent, step: Step)
    requires
        served::stepped(session, event, step),
    ensures
        final(session).peer_addr == old(session).peer_addr,
        final(session).handshake_budget_ms == old(session).handshake_budget_ms,
        final(session).idle_timeout_secs == old(session).idle_timeout_secs,
        final(session).started_at == old(session).started_at,
{
}

/// A connection is idle when it has been silent for longer than so many seconds, and not
/// before: at the very end of the last second it is not.
pub proof fn law_idle_is_longer_than_the_timeout(elapsed_nanos: u128, timeout_secs: u64, r: bool)
    requires
        call_ensures(connection::idle_after, (elapsed_nanos, timeout_secs), r),
    ensures
        r <==> elapsed_nanos > 1_000_000_000 * timeout_secs,
{
}

/// Whether a connection is idle is read off the clock, from its last packet.
pub proof fn law_idleness_is_read_off_the_clock(
    state: ConnectionState,
    clock: &mut Clock,
    timeout_secs: u64,
    r: bool,
    elapsed_nanos: u128,
)
    requires
        call_ensures(ConnectionState::is_idle_by, (&state, clock, timeout_secs), r),
        elapsed_nanos == final(clock).readings().last().1,
    ensures
        final(clock).readings() == old(clock).readings().push(
            (state.last_packet_time, elapsed_nanos),
        ),
        final(clock).told() == old(clock).told(),
        r <==> elapsed_nanos > 1_000_000_000 * timeout_secs,
{
}

/// A connection begins anonymous, with a keep-alive of a minute, and its silence counts
/// from then.
pub proof fn law_connections_begin_anonymous(
    at: Instant,
    clock: &mut Clock,
    begun: ConnectionState,
    by: ConnectionState,
    own: ConnectionState,
)
    requires
        call_ensures(ConnectionState::begun_at, (at,), begun),
        call_ensures(ConnectionState::new_by, (clock,), by),
        call_ensures(ConnectionState::new, (), own),
    ensures
        begun.client_id is None && by.client_id is None && own.client_id is None,
        begun.keep_alive == 60 && by.keep_alive == 60 && own.keep_alive == 60,
        begun.last_packet_time == at,
        final(clock).told() == old(clock).told().push(by.last_packet_time),
        final(clock).readings() == old(clock).readings(),
{
}

/// Activity changes when the last packet came, and nothing else of a connection. By a
/// clock it is the time that the clock told, once.
pub proof fn law_activity_is_noted(
    state: &mut ConnectionState,
    at: Instant,
    by: &mut ConnectionState,
    clock: &mut Clock,
    own: &mut ConnectionState,
)
    requires
        call_ensures(ConnectionState::set_activity, (state, at), ()),
        call_ensures(ConnectionState::update_activity_by, (by, clock), ()),
        call_ensures(ConnectionState::update_activity, (own,), ()),
    ensures
        final(state).last_packet_time == at,
        final(state).client_id == old(state).client_id,
        final(state).keep_alive == old(state).keep_alive,
        final(clock).told() == old(clock).told().push(final(by).last_packet_time),
        final(clock).readings() == old(clock).readings(),
        final(by).client_id == old(by).client_id,
        final(by).keep_alive == old(by).keep_alive,
        final(own).client_id == old(own).client_id,
        final(own).keep_alive == old(own).keep_alive,
{
}

/// What is told without a clock at hand is told by a clock: whether a connection is idle,
/// and how much time a session has left.
pub proof fn law_without_a_clock_one_is_read(
    state: ConnectionState,
    timeout_secs: u64,
    idle: bool,
    session: Session,
    left: u128,
)
    requires
        call_ensures(ConnectionState::is_idle, (&state, timeout_secs), idle),
        call_ensures(Session::remaining_nanos, (&session,), left),
    ensures
        exists|clock: &mut Clock|
            call_ensures(ConnectionState::is_idle_by, (&state, clock, timeout_secs), idle),
        exists|clock: &mut Clock| call_ensures(Session::remaining_by, (&session, clock), left),
{
}

/// What begins without a clock at hand begins at the time that a clock tells, and what is
/// noted without one is noted at the time that a clock tells.
pub proof fn law_without_a_clock_one_is_asked(
    state: ConnectionState,
    other: ConnectionState,
    noted: &mut ConnectionState,
    peer_addr: String,
    connection_timeout_secs: u64,
    idle_timeout_secs: u64,
    session: Session,
    stepping: &mut Session,
    event: IoEvent,
    step: Step,
)
    requires
        call_ensures(ConnectionState::new, (), state),
        call_ensures(<ConnectionState as Default>::default, (), other),
        call_ensures(ConnectionState::update_activity, (noted,), ()),
        call_ensures(
            Session::new,
            (peer_addr, connection_timeout_secs, idle_timeout_secs),
            session,
        ),
        call_ensures(Session::step, (stepping, event), step),
    ensures
        exists|clock: &mut Clock| call_ensures(ConnectionState::new_by, (clock,), state),
        exists|clock: &mut Clock| call_ensures(ConnectionState::new_by, (clock,), other),
        exists|s: &mut ConnectionState, clock: &mut Clock|
            {
                &&& call_ensures(ConnectionState::update_activity_by, (s, clock), ())
                &&& *s == *old(noted)
                &&& *final(s) == *final(noted)
            },
        exists|clock: &mut Clock|
            call_ensures(
                Session::new_by,
                (clock, peer_addr, connection_timeout_secs, idle_timeout_secs),
                session,
            ),
        exists|s: &mut Session, clock: &mut Clock|
            {
                &&& call_ensures(Session::step_by, (s, clock, event), step)
                &&& *s == *old(stepping)
                &&& *final(s) == *final(stepping)
            },
{
}

} // verus!
