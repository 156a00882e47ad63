//! Workers: their slots, their counts, the events they hand on, and how they stop.

use crate::broker::event;
use crate::broker::event::Event;
use crate::broker::handler::SessionOutcome;
use crate::broker::worker;
use crate::broker::worker::{
    Admission, Arrival, Drain, EventChannel, EventChannelState, EventSender, SessionEnd, Worker,
    WorkerEvent, WorkerNext, WorkerState,
};
use crate::error::Error;
use crate::laws::connect;
use crate::record::events;
use crate::record::events::EventLog;
use vstd::prelude::*;

verus! {

/// Sessions are cut off only when their grace period is over. As long as one of them is
/// left and the period is not over, the worker waits for exactly the rest of it, however
/// many they are. It ends at once when none is left.
pub proof fn law_sessions_get_their_grace(
    worker: &mut Worker,
    event: WorkerEvent,
    elapsed_nanos: u128,
    r: WorkerNext,
)
    requires
        call_ensures(Worker::step, (worker, event), r),
        event == WorkerEvent::Waited(elapsed_nanos) || (event is Stopped && elapsed_nanos == 0),
    ensures
        ({
            let active = old(worker).state@.active_connections;
            let grace = 1_000_000_000 * connect::at_most_a_year(old(worker).drain_timeout_secs);
            if active > 0 && elapsed_nanos < grace {
                &&& final(worker).stage is Draining
                &&& r matches WorkerNext::Wait(nanos)
                &&& nanos + elapsed_nanos == grace
            } else {
                &&& final(worker).stage is Ended
                &&& r matches WorkerNext::End(cut_off)
                &&& cut_off == active
            }
        }),
        final(worker).state@ == old(worker).state@,
        final(worker).accepted == old(worker).accepted,
{
}

/// The decision on a drain gives the sessions their grace period.
pub proof fn law_drains_are_decided_by_the_time_left(
    worker: Worker,
    elapsed_nanos: u128,
    r: Drain,
)
    requires
        call_ensures(Worker::on_drain, (&worker, elapsed_nanos), r),
    ensures
        ({
            let active = worker.state@.active_connections;
            let grace = 1_000_000_000 * connect::at_most_a_year(worker.drain_timeout_secs);
            &&& r is Done <==> active == 0
            &&& r is CutOff <==> active > 0 && elapsed_nanos >= grace
            &&& r matches Drain::Wait(left) ==> left + elapsed_nanos == grace
        }),
{
}

/// The word to go, and no other, opens a worker. Any other word, and none, ends it.
pub proof fn law_the_word_opens_or_ends(worker: &mut Worker, word: Option<bool>, r: WorkerNext)
    requires
        call_ensures(Worker::step, (worker, WorkerEvent::Word(word)), r),
    ensures
        word == Some(true) ==> {
            &&& final(worker).stage is Accepting
            &&& r is Accept
            &&& final(worker).past_barrier
        },
        word != Some(true) ==> {
            &&& final(worker).stage is Ended
            &&& r is Abort
            &&& final(worker).past_barrier == old(worker).past_barrier
        },
        final(worker).state@ == old(worker).state@,
        final(worker).accepted == old(worker).accepted,
        final(worker).drain_timeout_secs == old(worker).drain_timeout_secs,
{
}

/// The word to go is the only one to go on from.
pub proof fn law_only_go_is_go(word: Option<bool>, r: bool)
    requires
        call_ensures(worker::goes_on, (word,), r),
    ensures
        r <==> word is Some && word->Some_0,
{
}

/// A connection that comes while a slot is free takes it and is served, and every
/// hundredth is told. One that comes while none is free is turned away, and nothing is
/// counted for it.
pub proof fn law_connections_take_slots(worker: &mut Worker, r: WorkerNext)
    requires
        call_ensures(Worker::step, (worker, WorkerEvent::Connection), r),
        old(worker).accepted < u64::MAX,
    ensures
        final(worker).stage is Accepting,
        final(worker).past_barrier == old(worker).past_barrier,
        final(worker).drain_timeout_secs == old(worker).drain_timeout_secs,
        final(worker).state@.max_connections == old(worker).state@.max_connections,
        final(worker).state@.refused_connects == old(worker).state@.refused_connects,
        final(worker).state@.worker_id == old(worker).state@.worker_id,
        if old(worker).state@.active_connections < old(worker).state@.max_connections {
            &&& final(worker).state@.active_connections == old(worker).state@.active_connections
                + 1
            &&& final(worker).accepted == old(worker).accepted + 1
            &&& r matches WorkerNext::Serve(told)
            &&& told == if (old(worker).accepted + 1) % 100 == 0 {
                Some((old(worker).accepted + 1) as u64)
            } else {
                None
            }
        } else {
            &&& final(worker).state@.active_connections == old(worker).state@.active_connections
            &&& final(worker).accepted == old(worker).accepted
            &&& r is Reject
        },
{
}

/// A connection is decided on by the free slots alone.
pub proof fn law_arrivals_are_decided_by_the_slots(worker: &mut Worker, r: Arrival)
    requires
        call_ensures(Worker::on_connection, (worker,), r),
        old(worker).accepted < u64::MAX,
    ensures
        final(worker).stage == old(worker).stage,
        if old(worker).state@.active_connections < old(worker).state@.max_connections {
            &&& final(worker).state@.active_connections == old(worker).state@.active_connections
                + 1
            &&& final(worker).accepted == old(worker).accepted + 1
            &&& r is Serve
        } else {
            &&& final(worker).state@ == old(worker).state@
            &&& final(worker).accepted == old(worker).accepted
            &&& r is Reject
        },
{
}

/// A worker that could not take a connection tries again after a tenth of a second, with
/// nothing changed.
pub proof fn law_failed_accepts_are_retried(worker: &mut Worker, r: WorkerNext)
    requires
        call_ensures(Worker::step, (worker, WorkerEvent::AcceptFailed), r),
    ensures
        r == WorkerNext::Pause(100),
        final(worker).stage is Accepting,
        final(worker).state@ == old(worker).state@,
        final(worker).accepted == old(worker).accepted,
        final(worker).past_barrier == old(worker).past_barrier,
{
}

/// Every session gives back one slot when it ends, however it ended. A refusal is
/// counted, and told at the first and at every hundredth. An error is told unless the
/// client just went away.
pub proof fn law_session_ends_are_counted(
    worker: &mut Worker,
    result: Result<SessionOutcome, Error>,
    r: SessionEnd,
    routine: bool,
)
    requires
        call_ensures(Worker::on_session_end, (worker, &result), r),
        old(worker).state@.active_connections > 0,
        old(worker).state@.refused_connects < u64::MAX,
        result matches Err(e) ==> call_ensures(Error::is_routine_disconnect, (&e,), routine),
    ensures
        final(worker).state@.active_connections == old(worker).state@.active_connections - 1,
        final(worker).state@.max_connections == old(worker).state@.max_connections,
        final(worker).state@.worker_id == old(worker).state@.worker_id,
        final(worker).accepted == old(worker).accepted,
        final(worker).stage == old(worker).stage,
        if result == Ok::<SessionOutcome, Error>(SessionOutcome::Refused) {
            let count = old(worker).state@.refused_connects + 1;
            &&& final(worker).state@.refused_connects == count
            &&& r.refused == if count == 1 || count % 100 == 0 {
                Some(count as u64)
            } else {
                None
            }
        } else {
            &&& final(worker).state@.refused_connects == old(worker).state@.refused_connects
            &&& r.refused is None
        },
        r.error <==> result is Err && !routine,
{
}

/// A counter is told at the first occurrence and at every hundredth, and at no other.
pub proof fn law_counts_are_told(total: u64, r: bool)
    requires
        call_ensures(worker::should_log_count, (total,), r),
    ensures
        r <==> total == 1 || (total != 0 && exists|hundreds: int|
            total == #[trigger] (hundreds * 100)),
{
    if r && total != 1 {
        let hundreds = total as int / 100;
        assert(total == hundreds * 100);
    }
    if total != 0 && exists|hundreds: int| total == #[trigger] (hundreds * 100) {
        let hundreds = choose|hundreds: int| total == #[trigger] (hundreds * 100);
        assert(total as int % 100 == 0);
    }
}

/// A worker begins without connections and without counts, at the barrier.
pub proof fn law_workers_begin_empty(
    worker_id: usize,
    max_connections: usize,
    drain_timeout_secs: u64,
    r: Worker,
)
    requires
        call_ensures(Worker::new, (worker_id, max_connections, drain_timeout_secs), r),
    ensures
        r.stage is Waiting,
        !r.past_barrier,
        r.accepted == 0,
        r.drain_timeout_secs == drain_timeout_secs,
        r.state@.worker_id == worker_id,
        r.state@.active_connections == 0,
        r.state@.max_connections == max_connections,
        r.state@.refused_connects == 0,
        r.state.buffers()@.len() == 0,
        r.state.buffers().buffer_size() == 2048,
        r.state.buffers().max_pool_size() == max_connections / 4,
{
}

/// A slot can be taken exactly while fewer are taken than there are. It is then counted,
/// and nothing else changes.
pub proof fn law_slots_are_taken_one_by_one(
    state: &mut WorkerState,
    acquired: bool,
    before: usize,
    active: usize,
)
    requires
        call_ensures(WorkerState::active_count, (old(state),), before),
        call_ensures(WorkerState::try_acquire, (state,), acquired),
        call_ensures(WorkerState::active_count, (final(state),), active),
        before <= old(state)@.max_connections,
    ensures
        acquired <==> before < old(state)@.max_connections,
        active == before + if acquired {
            1int
        } else {
            0
        },
        final(state)@.max_connections == old(state)@.max_connections,
        final(state)@.refused_connects == old(state)@.refused_connects,
        final(state)@.worker_id == old(state)@.worker_id,
        final(state).buffers() == old(state).buffers(),
{
}

/// A slot that is given back is no longer counted, and nothing else changes.
pub proof fn law_slots_are_given_back_one_by_one(
    state: &mut WorkerState,
    before: usize,
    active: usize,
)
    requires
        call_ensures(WorkerState::active_count, (old(state),), before),
        call_ensures(WorkerState::release, (state,), ()),
        call_ensures(WorkerState::active_count, (final(state),), active),
        before > 0,
    ensures
        active == before - 1,
        final(state)@.max_connections == old(state)@.max_connections,
        final(state)@.refused_connects == old(state)@.refused_connects,
        final(state)@.worker_id == old(state)@.worker_id,
        final(state).buffers() == old(state).buffers(),
{
}

/// A refusal is counted, and nothing else changes. The count is told at the first and at
/// every hundredth.
pub proof fn law_refusals_are_counted(
    state: &mut WorkerState,
    r: Option<u64>,
    before: u64,
    total: u64,
)
    requires
        call_ensures(WorkerState::refused_total, (old(state),), before),
        call_ensures(WorkerState::note_refused, (state,), r),
        call_ensures(WorkerState::refused_total, (final(state),), total),
        before < u64::MAX,
    ensures
        total == before + 1,
        r == if total == 1 || total % 100 == 0 {
            Some(total)
        } else {
            None
        },
        final(state)@.active_connections == old(state)@.active_connections,
        final(state)@.max_connections == old(state)@.max_connections,
        final(state)@.worker_id == old(state)@.worker_id,
        final(state).buffers() == old(state).buffers(),
{
}

/// A worker keeps the number that it was given.
pub proof fn law_workers_know_their_number(
    worker_id: usize,
    max_connections: usize,
    state: WorkerState,
    id: usize,
    active: usize,
    refused: u64,
)
    requires
        call_ensures(WorkerState::new, (worker_id, max_connections), state),
        call_ensures(WorkerState::id, (&state,), id),
        call_ensures(WorkerState::active_count, (&state,), active),
        call_ensures(WorkerState::refused_total, (&state,), refused),
    ensures
        id == worker_id,
        active == 0,
        refused == 0,
        state@.max_connections == max_connections,
{
}

/// A payload is read by its own bytes: the temperature in the first two, in two's
/// complement, the pressure in the next two, and nothing where it is shorter.
pub proof fn law_payloads_are_read(data: &[u8], r: Option<Event>)
    requires
        call_ensures(event::parse_sensor_data, (data,), r),
    ensures
        r is None <==> data@.len() < 4,
        r matches Some(Event::SensorV1 { temperature, pressure }) ==> {
            let word = if temperature < 0 {
                temperature + 65536
            } else {
                temperature as int
            };
            &&& data@[0] == word / 256
            &&& data@[1] == word % 256
            &&& data@[2] == pressure / 256
            &&& data@[3] == pressure % 256
        },
{
}

/// An event that is offered while somebody receives waits where there is room, as the
/// last one. Where a thousand and twenty-four events wait already it is dropped, and the
/// drop is counted, and told at the first and at every hundredth. Where nobody receives
/// it is discarded, and nothing is counted.
pub proof fn law_offers_wait_or_are_counted(
    sender: EventSender,
    state: &mut EventChannelState,
    log: &mut EventLog,
    event: Event,
    r: Admission,
)
    requires
        call_ensures(EventSender::send, (&sender, state, log, event), r),
        old(state).depth <= 1024,
        old(state).dropped < u64::MAX,
    ensures
        ({
            let gone = final(log).closed().last();
            let taken = final(log).tried().last().1;
            &&& final(log).closed() == old(log).closed().push(gone)
            &&& if gone || old(state).depth == 1024 {
                &&& final(log).tried() == old(log).tried()
                &&& final(log).ends() == old(log).ends().push(sender.tx)
            } else {
                &&& final(log).tried() == old(log).tried().push((event, taken))
                &&& final(log).ends() == old(log).ends().push(sender.tx).push(sender.tx)
            }
            &&& r is Enqueue <==> !gone && old(state).depth < 1024 && taken
            &&& r is Drop <==> !gone && old(state).depth == 1024
            &&& final(state).depth == old(state).depth + if r is Enqueue {
                1int
            } else {
                0
            }
            &&& final(state).dropped == old(state).dropped + if r is Drop {
                1int
            } else {
                0
            }
            &&& r matches Admission::Drop(told) ==> told == if final(state).dropped == 1
                || final(state).dropped % 100 == 0 {
                Some(final(state).dropped)
            } else {
                None
            }
        }),
{
}

/// What is received is passed on as it is. An event leaves the queue one shorter, and
/// the end of the channel leaves it alone. Nothing counts as dropped.
pub proof fn law_deliveries_are_counted(
    state: &mut EventChannelState,
    item: Option<Event>,
    r: Option<Event>,
)
    requires
        call_ensures(EventChannelState::received, (state, item), r),
        item is Some ==> old(state).depth > 0,
    ensures
        r == item,
        final(state).depth == old(state).depth - if item is Some {
            1int
        } else {
            0
        },
        final(state).dropped == old(state).dropped,
{
}

/// A worker's event channel begins empty, with nothing dropped, and its sender leads to
/// its receiver. So does every copy of the sender.
pub proof fn law_event_channels_begin_empty(
    worker_id: usize,
    channel: EventChannel,
    copy: EventSender,
)
    requires
        call_ensures(worker::event_channel, (worker_id,), channel),
        call_ensures(EventSender::clone, (&channel.sender,), copy),
    ensures
        channel.state.depth == 0,
        channel.state.dropped == 0,
        channel.log.closed().len() == 0,
        channel.log.tried().len() == 0,
        channel.log.ends().len() == 0,
        events::one_channel(channel.sender.tx, channel.receiver.rx),
        events::one_channel(copy.tx, channel.receiver.rx),
        channel.sender.worker_id == worker_id,
        copy.worker_id == worker_id,
{
}

} // verus!
