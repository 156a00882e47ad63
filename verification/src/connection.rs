//! The state of one connection.

use crate::record::clock::Clock;
use std::time::Instant;
use vstd::prelude::*;

verus! {

/// Who a connection is with, and when it last spoke.
#[derive(Debug)]
pub struct ConnectionState {
    /// The client's identifier, known once its CONNECT was accepted.
    pub client_id: Option<String>,
    /// The keep-alive in seconds.
    pub keep_alive: u16,
    /// When the last packet arrived.
    pub last_packet_time: Instant,
}

/// Whether so much time is longer than `timeout_secs` seconds.
pub open spec fn exceeds(elapsed_nanos: u128, timeout_secs: u64) -> bool {
    elapsed_nanos > timeout_secs * 1_000_000_000
}

/// Whether so much silence is longer than `timeout_secs` seconds.
pub fn idle_after(elapsed_nanos: u128, timeout_secs: u64) -> (r: bool)
    ensures
        r == exceeds(elapsed_nanos, timeout_secs),
{
    elapsed_nanos > timeout_secs as u128 * 1_000_000_000
}

impl ConnectionState {
    /// The state of a connection that just began.
    pub fn new() -> (r: ConnectionState)
        ensures
            r.client_id is None,
            r.keep_alive == 60,
            exists|clock: &mut Clock| call_ensures(ConnectionState::new_by, (clock,), r),
    {
        ConnectionState::new_by(&mut Clock::new())
    }

    /// The state of a connection that just began, by the given clock.
    pub fn new_by(clock: &mut Clock) -> (r: ConnectionState)
        ensures
            old(clock).told_once(r.last_packet_time, *final(clock)),
            r.client_id is None,
            r.keep_alive == 60,
    {
        ConnectionState::begun_at(clock.now())
    }

    /// The state of a connection that began at the given time.
    pub fn begun_at(at: Instant) -> (r: ConnectionState)
        ensures
            r == (ConnectionState { client_id: None, keep_alive: 60, last_packet_time: at }),
    {
        ConnectionState { client_id: None, keep_alive: 60, last_packet_time: at }
    }

    /// Takes note that a packet arrived now.
    pub fn update_activity(&mut self)
        ensures
            exists|at: Instant| #[trigger] old(self).active_at(at) == *final(self),
            exists|state: &mut ConnectionState, clock: &mut Clock|
                {
                    &&& call_ensures(ConnectionState::update_activity_by, (state, clock), ())
                    &&& *state == *old(self)
                    &&& *final(state) == *final(self)
                },
    {
        self.update_activity_by(&mut Clock::new());
        assert(old(self).active_at(self.last_packet_time) == *self);
    }

    /// Takes note that a packet arrived now, by the given clock.
    pub fn update_activity_by(&mut self, clock: &mut Clock)
        ensures
            *final(self) == old(self).active_at(final(self).last_packet_time),
            old(clock).told_once(final(self).last_packet_time, *final(clock)),
    {
        let at = clock.now();
        self.set_activity(at);
    }

    /// The state after a packet arrived at the given time.
    pub open spec fn active_at(self, at: Instant) -> ConnectionState {
        ConnectionState { last_packet_time: at, ..self }
    }

    /// Takes note that a packet arrived at the given time.
    pub fn set_activity(&mut self, at: Instant)
        ensures
            *final(self) == old(self).active_at(at),
    {
        self.last_packet_time = at;
    }

    /// Whether the connection has been silent for longer than `timeout_secs`
    /// seconds.
    pub fn is_idle(&self, timeout_secs: u64) -> (r: bool)
        ensures
            exists|elapsed_nanos: u128| r == #[trigger] exceeds(elapsed_nanos, timeout_secs),
            exists|clock: &mut Clock|
                call_ensures(ConnectionState::is_idle_by, (self, clock, timeout_secs), r),
    {
        self.is_idle_by(&mut Clock::new(), timeout_secs)
    }

    /// Whether the connection has been silent for longer than `timeout_secs`
    /// seconds, by the given clock: the time since its last packet is read.
    pub fn is_idle_by(&self, clock: &mut Clock, timeout_secs: u64) -> (r: bool)
        ensures
            old(clock).read(self.last_packet_time, *final(clock)),
            r == exceeds(final(clock).elapsed(), timeout_secs),
    {
        let elapsed_nanos = clock.elapsed_nanos(&self.last_packet_time);
        idle_after(elapsed_nanos, timeout_secs)
    }
}

impl Default for ConnectionState {
    fn default() -> (r: ConnectionState)
        ensures
            r.client_id is None,
            r.keep_alive == 60,
            exists|clock: &mut Clock| call_ensures(ConnectionState::new_by, (clock,), r),
    {
        ConnectionState::new()
    }
}

} // verus!
