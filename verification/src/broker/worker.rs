//! One worker: its connection slots, its event channel, its accept loop.

use crate::broker::event::Event;
use crate::broker::handler;
use crate::broker::handler::SessionOutcome;
use crate::broker::handshake;
use crate::error::Error;
use crate::pool;
use crate::pool::BufferPool;
use crate::record::events;
use crate::record::events::EventLog;
use local_sync::mpsc::unbounded::{Rx, Tx};
use vstd::prelude::*;

verus! {

/// How many events wait for delivery at most.
pub const EVENT_CHANNEL_CAPACITY: usize = 1024;

/// Every how many occurrences a counter is worth a log line.
pub const COUNT_LOG_EVERY: u64 = 100;

/// How long a worker waits after a failed accept, in milliseconds.
pub const ACCEPT_RETRY_MS: u64 = 100;

/// The capacity of a worker's buffers.
pub const WORKER_BUFFER_SIZE: usize = 2048;

/// The first occurrence is worth a log line, and then every hundredth.
pub open spec fn worth_logging(total: u64) -> bool {
    total == 1 || (total > 0 && total % COUNT_LOG_EVERY == 0)
}

/// Whether a counter that reached `total` is worth a log line.
pub fn should_log_count(total: u64) -> (r: bool)
    ensures
        r == worth_logging(total),
{
    total == 1 || (total > 0 && total % COUNT_LOG_EVERY == 0)
}

/// `total`, if it is worth a log line.
pub open spec fn logged(total: u64) -> Option<u64> {
    if worth_logging(total) {
        Some(total)
    } else {
        None
    }
}

/// What a worker keeps count of.
pub struct WorkerState {
    worker_id: usize,
    active_connections: usize,
    max_connections: usize,
    refused_connects: u64,
    buffer_pool: BufferPool,
}

/// A worker's counts.
pub ghost struct WorkerView {
    pub worker_id: usize,
    pub active_connections: usize,
    pub max_connections: usize,
    pub refused_connects: u64,
}

impl WorkerView {
    /// Whether a slot is free.
    pub open spec fn has_room(self) -> bool {
        self.active_connections < self.max_connections
    }

    /// With one more slot taken.
    pub open spec fn acquired(self) -> WorkerView {
        WorkerView { active_connections: (self.active_connections + 1) as usize, ..self }
    }

    /// With one slot given back.
    pub open spec fn released(self) -> WorkerView {
        WorkerView { active_connections: (self.active_connections - 1) as usize, ..self }
    }

    /// With one more CONNECT refused.
    pub open spec fn refused(self) -> WorkerView {
        WorkerView { refused_connects: (self.refused_connects + 1) as u64, ..self }
    }
}

impl View for WorkerState {
    type V = WorkerView;

    closed spec fn view(&self) -> WorkerView {
        WorkerView {
            worker_id: self.worker_id,
            active_connections: self.active_connections,
            max_connections: self.max_connections,
            refused_connects: self.refused_connects,
        }
    }
}

impl WorkerState {
    /// The buffers that the worker keeps for reuse.
    pub closed spec fn buffers(&self) -> BufferPool {
        self.buffer_pool
    }

    /// No more connections are active than there are slots, and the buffer pool
    /// is in order: a quarter of the slots, in buffers of the worker's size.
    pub open spec fn wf(&self) -> bool {
        &&& self@.active_connections <= self@.max_connections
        &&& self.buffers().wf()
        &&& self.buffers().buffer_size() == WORKER_BUFFER_SIZE
        &&& self.buffers().max_pool_size() == self@.max_connections / 4
    }

    /// A worker without connections. Its buffer pool sets room aside for a
    /// quarter of the slots.
    pub fn new(worker_id: usize, max_connections: usize) -> (r: WorkerState)
        requires
            max_connections / 4 * pool::BUFFER_HANDLE_BYTES <= isize::MAX,
        ensures
            r@ == (WorkerView {
                worker_id,
                active_connections: 0,
                max_connections,
                refused_connects: 0,
            }),
            r.buffers()@.len() == 0,
            r.wf(),
    {
        WorkerState {
            worker_id,
            active_connections: 0,
            max_connections,
            refused_connects: 0,
            buffer_pool: BufferPool::new(WORKER_BUFFER_SIZE, max_connections / 4),
        }
    }

    /// Takes a connection slot, if there is a free one.
    pub fn try_acquire(&mut self) -> (r: bool)
        requires
            old(self).wf(),
        ensures
            r == old(self)@.has_room(),
            final(self)@ == if r {
                old(self)@.acquired()
            } else {
                old(self)@
            },
            final(self).buffers() == old(self).buffers(),
            final(self).wf(),
    {
        if self.active_connections >= self.max_connections {
            return false;
        }
        self.active_connections = self.active_connections + 1;
        true
    }

    /// Gives a connection slot back.
    pub fn release(&mut self)
        requires
            old(self).wf(),
            old(self)@.active_connections > 0,
        ensures
            final(self)@ == old(self)@.released(),
            final(self).buffers() == old(self).buffers(),
            final(self).wf(),
    {
        self.active_connections = self.active_connections - 1;
    }

    /// How many connections are active.
    pub fn active_count(&self) -> (r: usize)
        ensures
            r == self@.active_connections,
    {
        self.active_connections
    }

    /// Which worker this is.
    pub fn id(&self) -> (r: usize)
        ensures
            r == self@.worker_id,
    {
        self.worker_id
    }

    /// How many CONNECTs the worker has refused.
    pub fn refused_total(&self) -> (r: u64)
        ensures
            r == self@.refused_connects,
    {
        self.refused_connects
    }

    /// Counts a refused CONNECT. Tells the count where it is worth a log line.
    pub fn note_refused(&mut self) -> (r: Option<u64>)
        requires
            old(self).wf(),
            old(self)@.refused_connects < u64::MAX,
        ensures
            final(self)@ == old(self)@.refused(),
            r == logged(final(self)@.refused_connects),
            final(self).buffers() == old(self).buffers(),
            final(self).wf(),
    {
        self.refused_connects = self.refused_connects + 1;
        if should_log_count(self.refused_connects) {
            Some(self.refused_connects)
        } else {
            None
        }
    }
}

/// What the ends of an event channel keep count of.
#[derive(Debug, Clone, Copy, PartialEq, Eq, Structural)]
pub struct EventChannelState {
    /// How many events wait for delivery.
    pub depth: usize,
    /// How many events found the channel full, ever.
    pub dropped: u64,
}

/// What becomes of an event that is offered to the channel.
#[derive(Debug, Clone, Copy, PartialEq, Eq, Structural)]
pub enum Admission {
    /// Nobody receives any more.
    Discard,
    /// The channel is full. Tells the count of dropped events where it is worth
    /// a log line.
    Drop(Option<u64>),
    /// There is room.
    Enqueue,
}

impl EventChannelState {
    /// No more events wait than the channel has room for.
    pub open spec fn wf(&self) -> bool {
        self.depth <= EVENT_CHANNEL_CAPACITY
    }

    /// The counts after an event was offered while somebody received: it waits
    /// if there is room, and is dropped and counted if there is none.
    pub open spec fn offered(self) -> EventChannelState {
        if self.depth < EVENT_CHANNEL_CAPACITY {
            EventChannelState { depth: (self.depth + 1) as usize, dropped: self.dropped }
        } else {
            EventChannelState { depth: self.depth, dropped: (self.dropped + 1) as u64 }
        }
    }

    /// The counts after an event was delivered.
    pub open spec fn delivered(self) -> EventChannelState {
        EventChannelState { depth: (self.depth - 1) as usize, dropped: self.dropped }
    }

    /// What an event leads to that is offered on a sending end, by the record of
    /// what that end was asked and given. It is asked whether anybody
    /// receives. If nobody does, the event is discarded. Else it is dropped and
    /// counted where there is no room, and where there is room it is sent: then
    /// it waits if the channel took it, and is discarded if it did not.
    pub open spec fn send_made(
        self,
        tx: Tx<Event>,
        log: EventLog,
        event: Event,
        r: Admission,
        after: EventChannelState,
        log_after: EventLog,
    ) -> bool {
        let closed = log_after.closed().last();
        let taken = log_after.tried().last().1;
        &&& log_after.closed() == log.closed().push(closed)
        &&& if closed {
            &&& r is Discard
            &&& after == self
            &&& log_after.ends() == log.ends().push(tx)
            &&& log_after.tried() == log.tried()
        } else if self.depth >= EVENT_CHANNEL_CAPACITY {
            &&& r == Admission::Drop(logged(after.dropped))
            &&& after == self.offered()
            &&& log_after.ends() == log.ends().push(tx)
            &&& log_after.tried() == log.tried()
        } else {
            &&& log_after.ends() == log.ends().push(tx).push(tx)
            &&& log_after.tried() == log.tried().push((event, taken))
            &&& r == if taken {
                Admission::Enqueue
            } else {
                Admission::Discard
            }
            &&& after == if taken {
                self.offered()
            } else {
                self
            }
        }
    }

    /// The events that wait for delivery, out of all that the channel took: the
    /// last so many, since the first in is the first out.
    pub open spec fn waiting(self, sent: Seq<Event>) -> Seq<Event> {
        sent.skip(sent.len() - self.depth)
    }

    /// The counts of a new channel.
    pub fn new() -> (r: EventChannelState)
        ensures
            r == (EventChannelState { depth: 0, dropped: 0 }),
            r.wf(),
    {
        EventChannelState { depth: 0, dropped: 0 }
    }

    /// Decides on an event. That nobody receives goes before that there is no
    /// room, so that only events that a receiver missed are counted.
    pub fn consider(&mut self, closed: bool) -> (r: Admission)
        requires
            old(self).wf(),
            old(self).dropped < u64::MAX,
        ensures
            final(self).wf(),
            if closed {
                r is Discard && *final(self) == *old(self)
            } else if old(self).depth >= EVENT_CHANNEL_CAPACITY {
                &&& *final(self) == old(self).offered()
                &&& r == Admission::Drop(logged(final(self).dropped))
            } else {
                r is Enqueue && *final(self) == *old(self)
            },
    {
        if closed {
            return Admission::Discard;
        }
        if self.depth >= EVENT_CHANNEL_CAPACITY {
            self.dropped = self.dropped + 1;
            let log = if should_log_count(self.dropped) {
                Some(self.dropped)
            } else {
                None
            };
            return Admission::Drop(log);
        }
        Admission::Enqueue
    }

    /// Counts an event for which there was room: the channel took it, or nobody
    /// receives any more.
    pub fn on_sent(&mut self, taken: bool) -> (r: Admission)
        requires
            old(self).depth < EVENT_CHANNEL_CAPACITY,
        ensures
            final(self).wf(),
            if taken {
                r is Enqueue && *final(self) == old(self).offered()
            } else {
                r is Discard && *final(self) == *old(self)
            },
    {
        if taken {
            self.depth = self.depth + 1;
            Admission::Enqueue
        } else {
            Admission::Discard
        }
    }

    /// Counts what the receiving end got: an event, or the end of the channel.
    pub fn received(&mut self, item: Option<Event>) -> (r: Option<Event>)
        requires
            old(self).wf(),
            item is Some ==> old(self).depth > 0,
        ensures
            final(self).wf(),
            r == item,
            *final(self) == if item is Some {
                old(self).delivered()
            } else {
                *old(self)
            },
    {
        if item.is_some() {
            self.depth = self.depth - 1;
        }
        item
    }
}

/// The sending end of a worker's event channel.
pub struct EventSender {
    pub tx: Tx<Event>,
    pub worker_id: usize,
}

/// The receiving end of a worker's event channel.
pub struct EventReceiver {
    pub rx: Rx<Event>,
}

impl Clone for EventSender {
    /// Another sender of the same channel.
    fn clone(&self) -> (r: EventSender)
        ensures
            r.worker_id == self.worker_id,
            forall|rx: Rx<Event>| #[trigger] events::one_channel(r.tx, rx) == events::one_channel(self.tx, rx),
    {
        EventSender { tx: events::another_end(&self.tx), worker_id: self.worker_id }
    }
}

impl EventSender {
    /// Offers an event to the channel, and sends it where there is room and
    /// somebody receives. What was made of it is told. Whether the receiving end
    /// is gone is for the channel to say, when it is asked and when the event is
    /// sent.
    pub fn send(&self, state: &mut EventChannelState, log: &mut EventLog, event: Event) -> (r:
        Admission)
        requires
            old(state).wf(),
            old(state).dropped < u64::MAX,
        ensures
            final(state).wf(),
            old(state).send_made(self.tx, *old(log), event, r, *final(state), *final(log)),
    {
        match state.consider(events::is_closed(&self.tx, log)) {
            Admission::Enqueue => state.on_sent(events::send_on(&self.tx, log, event)),
            refused => refused,
        }
    }
}

/// A worker's event channel: its two ends, and what they share.
pub struct EventChannel {
    pub sender: EventSender,
    pub receiver: EventReceiver,
    pub state: EventChannelState,
    pub log: EventLog,
}

/// A worker's event channel.
pub fn event_channel(worker_id: usize) -> (r: EventChannel)
    ensures
        r.sender.worker_id == worker_id,
        r.state == (EventChannelState { depth: 0, dropped: 0 }),
        r.state.wf(),
        r.log.ends() == Seq::<Tx<Event>>::empty(),
        r.log.closed() == Seq::<bool>::empty(),
        r.log.tried() == Seq::<(Event, bool)>::empty(),
        events::one_channel(r.sender.tx, r.receiver.rx),
{
    let (tx, rx) = events::open_channel();
    EventChannel {
        sender: EventSender { tx, worker_id },
        receiver: EventReceiver { rx },
        state: EventChannelState::new(),
        log: EventLog::new(),
    }
}

/// Whether a worker goes on from the startup barrier. It does on the word to go,
/// and on that alone: not on the word to abort, nor where nobody is left to give
/// one.
pub fn goes_on(word: Option<bool>) -> (r: bool)
    ensures
        r == (word == Some(true)),
{
    match word {
        Some(go) => go,
        None => false,
    }
}

/// What a worker does with a connection that arrived.
#[derive(Debug, Clone, Copy, PartialEq, Eq, Structural)]
pub enum Arrival {
    /// All slots are taken: the connection is dropped.
    Reject,
    /// The connection is served. Tells how many there were so far, where that is
    /// worth a log line.
    Serve(Option<u64>),
}

/// What is worth a log line when a session ends.
#[derive(Debug, Clone, Copy, PartialEq, Eq, Structural)]
pub struct SessionEnd {
    /// How many CONNECTs were refused so far.
    pub refused: Option<u64>,
    /// The session's error.
    pub error: bool,
}

/// A worker's counts after a session ended: its slot is free again, however it
/// ended, and a refusal is counted.
pub open spec fn after_session(
    view: WorkerView,
    result: Result<SessionOutcome, Error>,
) -> WorkerView {
    if result matches Ok(SessionOutcome::Refused) {
        view.refused().released()
    } else {
        view.released()
    }
}

/// What a worker that was told to stop does next.
#[derive(Debug, Clone, Copy, PartialEq, Eq, Structural)]
pub enum Drain {
    /// It ends: no session is left.
    Done,
    /// It ends, and cuts off the sessions that are left: the grace period is over.
    CutOff,
    /// It waits for its sessions, for so many nanoseconds at most.
    Wait(u128),
}

/// What a worker does that was told to stop some time ago, by how many sessions
/// it has left.
pub open spec fn draining(active: usize, drain_timeout_secs: u64, elapsed_nanos: u128) -> Drain {
    let grace = handshake::supported_secs(drain_timeout_secs) * 1_000_000_000;
    if active == 0 {
        Drain::Done
    } else if elapsed_nanos >= grace {
        Drain::CutOff
    } else {
        Drain::Wait((grace - elapsed_nanos) as u128)
    }
}

/// Where a worker stands.
#[derive(Debug, Clone, Copy, PartialEq, Eq, Structural)]
pub enum Stage {
    /// It is set up, and waits at the startup barrier.
    Waiting,
    /// It takes connections.
    Accepting,
    /// It was told to stop and waits for its sessions.
    Draining,
    Ended,
}

/// What happened to a worker.
#[derive(Debug, Clone, Copy, PartialEq, Eq, Structural)]
pub enum WorkerEvent {
    /// The word at the startup barrier. `None` where nobody is left to give one.
    Word(Option<bool>),
    /// A connection arrived.
    Connection,
    /// It could not take a connection.
    AcceptFailed,
    /// It was told to stop.
    Stopped,
    /// It has waited for its sessions: so many nanoseconds since it was told to
    /// stop.
    Waited(u128),
}

/// What a worker does next.
#[derive(Debug, Clone, Copy, PartialEq, Eq, Structural)]
pub enum WorkerNext {
    /// End: the start failed elsewhere.
    Abort,
    /// Take a connection.
    Accept,
    /// Pause for so many milliseconds, then take a connection.
    Pause(u64),
    /// Drop the connection that arrived, then take another.
    Reject,
    /// Serve the connection that arrived and take another. Tells how many there
    /// were so far, where that is worth a log line.
    Serve(Option<u64>),
    /// Wait for the sessions that are left, for so many nanoseconds at most.
    Wait(u128),
    /// End, and cut off as many sessions as are left.
    End(usize),
}

/// Which events a worker can meet where it stands.
pub open spec fn awaits(stage: Stage, event: WorkerEvent) -> bool {
    match event {
        WorkerEvent::Word(_) => stage is Waiting,
        WorkerEvent::Connection => stage is Accepting,
        WorkerEvent::AcceptFailed => stage is Accepting,
        WorkerEvent::Stopped => stage is Accepting,
        WorkerEvent::Waited(_) => stage is Draining,
    }
}

/// A worker: its counts, how many connections it has served, and where it
/// stands.
pub struct Worker {
    pub state: WorkerState,
    pub accepted: u64,
    pub stage: Stage,
    /// Whether it has passed the startup barrier.
    pub past_barrier: bool,
    /// How long its sessions may go on after it was told to stop, in seconds.
    pub drain_timeout_secs: u64,
}

impl Worker {
    /// How an arrived connection changes the worker, and what is done with it.
    pub open spec fn arrived(self, after: Worker, r: Arrival) -> bool {
        if self.state@.has_room() {
            &&& after.accepted == self.accepted + 1
            &&& after.state@ == self.state@.acquired()
            &&& r == Arrival::Serve(
                if after.accepted % COUNT_LOG_EVERY == 0 {
                    Some(after.accepted)
                } else {
                    None
                },
            )
        } else {
            &&& after.accepted == self.accepted
            &&& after.state@ == self.state@
            &&& r is Reject
        }
    }

    /// Where a worker stands, and what it does, that was told to stop some time
    /// ago.
    pub open spec fn drained(self, elapsed_nanos: u128, after: Worker, r: WorkerNext) -> bool {
        let active = self.state@.active_connections;
        match draining(active, self.drain_timeout_secs, elapsed_nanos) {
            Drain::Done => after.stage is Ended && r == WorkerNext::End(0),
            Drain::CutOff => after.stage is Ended && r == WorkerNext::End(active),
            Drain::Wait(nanos) => after.stage is Draining && r == WorkerNext::Wait(nanos),
        }
    }

    /// Where an event takes the worker, and what it does next.
    pub open spec fn moved(self, event: WorkerEvent, after: Worker, r: WorkerNext) -> bool {
        &&& after.drain_timeout_secs == self.drain_timeout_secs
        &&& after.past_barrier == (self.past_barrier || event == WorkerEvent::Word(Some(true)))
        &&& !(event is Connection) ==> after.accepted == self.accepted && after.state@ == self.state@
        &&& match event {
            WorkerEvent::Word(word) => if word == Some(true) {
                after.stage is Accepting && r is Accept
            } else {
                after.stage is Ended && r is Abort
            },
            WorkerEvent::Connection => {
                &&& after.stage is Accepting
                &&& match r {
                    WorkerNext::Reject => self.arrived(after, Arrival::Reject),
                    WorkerNext::Serve(log) => self.arrived(after, Arrival::Serve(log)),
                    _ => false,
                }
            },
            WorkerEvent::AcceptFailed => {
                &&& after.stage is Accepting
                &&& r == WorkerNext::Pause(ACCEPT_RETRY_MS)
            },
            WorkerEvent::Stopped => self.drained(0, after, r),
            WorkerEvent::Waited(elapsed_nanos) => self.drained(elapsed_nanos, after, r),
        }
    }

    /// A worker at its start.
    pub fn new(worker_id: usize, max_connections: usize, drain_timeout_secs: u64) -> (r: Worker)
        requires
            max_connections / 4 * pool::BUFFER_HANDLE_BYTES <= isize::MAX,
        ensures
            r.accepted == 0,
            r.stage is Waiting,
            !r.past_barrier,
            r.drain_timeout_secs == drain_timeout_secs,
            r.state@ == (WorkerView {
                worker_id,
                active_connections: 0,
                max_connections,
                refused_connects: 0,
            }),
            r.state.buffers()@.len() == 0,
            r.state.wf(),
    {
        Worker {
            state: WorkerState::new(worker_id, max_connections),
            accepted: 0,
            stage: Stage::Waiting,
            past_barrier: false,
            drain_timeout_secs,
        }
    }

    /// Decides on a connection that arrived.
    pub fn on_connection(&mut self) -> (r: Arrival)
        requires
            old(self).state.wf(),
            old(self).accepted < u64::MAX,
        ensures
            final(self).state.wf(),
            final(self).state.buffers() == old(self).state.buffers(),
            final(self).stage == old(self).stage,
            final(self).past_barrier == old(self).past_barrier,
            final(self).drain_timeout_secs == old(self).drain_timeout_secs,
            old(self).arrived(*final(self), r),
    {
        if !self.state.try_acquire() {
            return Arrival::Reject;
        }
        self.accepted = self.accepted + 1;
        if self.accepted % COUNT_LOG_EVERY == 0 {
            Arrival::Serve(Some(self.accepted))
        } else {
            Arrival::Serve(None)
        }
    }

    /// Gives the slot of a session back, however it ended, and counts a refusal.
    pub fn on_session_end(&mut self, result: &Result<SessionOutcome, Error>) -> (r: SessionEnd)
        requires
            old(self).state.wf(),
            old(self).state@.active_connections > 0,
            old(self).state@.refused_connects < u64::MAX,
        ensures
            final(self).state.wf(),
            final(self).state.buffers() == old(self).state.buffers(),
            final(self).accepted == old(self).accepted,
            final(self).stage == old(self).stage,
            final(self).past_barrier == old(self).past_barrier,
            final(self).drain_timeout_secs == old(self).drain_timeout_secs,
            final(self).state@ == after_session(old(self).state@, *result),
            r.refused == if *result matches Ok(SessionOutcome::Refused) {
                logged(final(self).state@.refused_connects)
            } else {
                None
            },
            r.error == match *result {
                Ok(_) => false,
                Err(e) => !e.routine(),
            },
    {
        let mut end = SessionEnd { refused: None, error: false };
        match result {
            Ok(SessionOutcome::Refused) => {
                end.refused = self.state.note_refused();
            },
            Ok(_) => {},
            Err(e) => {
                end.error = !e.is_routine_disconnect();
            },
        }
        self.state.release();
        end
    }

    /// Decides how a worker goes on that was told to stop `elapsed_nanos` ago.
    pub fn on_drain(&self, elapsed_nanos: u128) -> (r: Drain)
        ensures
            r == draining(self.state@.active_connections, self.drain_timeout_secs, elapsed_nanos),
    {
        if self.state.active_count() == 0 {
            return Drain::Done;
        }
        let grace_ms: u64 = handshake::clamp_timeout_secs(self.drain_timeout_secs) * 1000;
        let left: u128 = handler::remaining(grace_ms, elapsed_nanos);
        if left == 0 {
            Drain::CutOff
        } else {
            Drain::Wait(left)
        }
    }

    /// Goes on with the drain.
    fn drain(&mut self, elapsed_nanos: u128) -> (r: WorkerNext)
        requires
            old(self).state.wf(),
        ensures
            final(self).state == old(self).state,
            final(self).accepted == old(self).accepted,
            final(self).past_barrier == old(self).past_barrier,
            final(self).drain_timeout_secs == old(self).drain_timeout_secs,
            old(self).drained(elapsed_nanos, *final(self), r),
    {
        match self.on_drain(elapsed_nanos) {
            Drain::Done => {
                self.stage = Stage::Ended;
                WorkerNext::End(0)
            },
            Drain::CutOff => {
                self.stage = Stage::Ended;
                WorkerNext::End(self.state.active_count())
            },
            Drain::Wait(nanos) => {
                self.stage = Stage::Draining;
                WorkerNext::Wait(nanos)
            },
        }
    }

    /// Goes on after an event.
    pub fn step(&mut self, event: WorkerEvent) -> (r: WorkerNext)
        requires
            awaits(old(self).stage, event),
            old(self).state.wf(),
            old(self).accepted < u64::MAX,
        ensures
            final(self).state.wf(),
            final(self).state.buffers() == old(self).state.buffers(),
            old(self).moved(event, *final(self), r),
    {
        match event {
            WorkerEvent::Word(word) => {
                if goes_on(word) {
                    self.stage = Stage::Accepting;
                    self.past_barrier = true;
                    WorkerNext::Accept
                } else {
                    self.stage = Stage::Ended;
                    WorkerNext::Abort
                }
            },
            WorkerEvent::Connection => match self.on_connection() {
                Arrival::Reject => WorkerNext::Reject,
                Arrival::Serve(log) => WorkerNext::Serve(log),
            },
            WorkerEvent::AcceptFailed => WorkerNext::Pause(ACCEPT_RETRY_MS),
            WorkerEvent::Stopped => self.drain(0),
            WorkerEvent::Waited(elapsed_nanos) => self.drain(elapsed_nanos),
        }
    }
}

} // verus!
