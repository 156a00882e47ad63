//! Workers, channels, buffers, start and stop.

use crate::broker::event;
use crate::broker::event::Event;
use crate::broker::handler::SessionOutcome;
use crate::broker::startup;
use crate::broker::startup::{SignalEnds, WorkerExit};
use crate::broker::worker;
use crate::broker::worker::{
    Admission, Drain, EventChannelState, Worker, WorkerEvent, WorkerNext, WorkerView,
    COUNT_LOG_EVERY, EVENT_CHANNEL_CAPACITY,
};
use crate::buffer;
use crate::error::Error;
use crate::pool;
use crate::pool::BufferPool;
use crate::record::events;
use crate::record::events::EventLog;
use crate::record::workers::Report;
use bytes::BytesMut;
use local_sync::mpsc::unbounded::{Rx, Tx};
use vstd::prelude::*;

verus! {

/// Whether somebody received while an event was offered: the channel said so when
/// it was asked, and took the event if it was sent.
pub open spec fn somebody_received(log: EventLog, after: EventLog) -> bool {
    &&& !after.closed().last()
    &&& after.tried().len() > log.tried().len() ==> after.tried().last().1
}

/// What the channel took is what it had taken before, and the last event if it
/// took it.
proof fn lemma_taken_of_push(tried: Seq<(Event, bool)>, event: Event, taken: bool)
    ensures
        events::taken_of(tried.push((event, taken))) == if taken {
            events::taken_of(tried).push(event)
        } else {
            events::taken_of(tried)
        },
{
    assert(tried.push((event, taken)).drop_last() == tried);
}

/// The queue takes the very event that is offered, at its end, where somebody
/// receives and there is room. Where there is no room that event is the one that is
/// lost, and it is counted. The queue never holds more than its capacity, and it is
/// the queue of the sender's own receiver.
pub proof fn law_the_queue_takes_what_is_offered(
    tx: Tx<Event>,
    rx: Rx<Event>,
    state: EventChannelState,
    log: EventLog,
    event: Event,
    r: Admission,
    after: EventChannelState,
    log_after: EventLog,
)
    requires
        state.wf(),
        state.depth <= log.sent().len(),
        state.dropped < u64::MAX,
        events::one_channel(tx, rx),
        log.leads_to(rx),
        state.send_made(tx, log, event, r, after, log_after),
    ensures
        log_after.leads_to(rx),
        after.wf(),
        after.depth <= log_after.sent().len(),
        after.waiting(log_after.sent()).len() <= EVENT_CHANNEL_CAPACITY,
        somebody_received(log, log_after) ==> if state.waiting(log.sent()).len()
            < EVENT_CHANNEL_CAPACITY {
            &&& r is Enqueue
            &&& after.waiting(log_after.sent()) == state.waiting(log.sent()).push(event)
            &&& after.dropped == state.dropped
        } else {
            &&& r == Admission::Drop(worker::logged(after.dropped))
            &&& after.waiting(log_after.sent()) == state.waiting(log.sent())
            &&& after.dropped == state.dropped + 1
        },
        !somebody_received(log, log_after) ==> r is Discard && after == state && log_after.sent()
            == log.sent(),
{
    let (event, taken) = log_after.tried().last();
    lemma_taken_of_push(log.tried(), event, taken);
}

/// Whether the `i`-th of a run of events was offered while somebody received, with
/// nothing delivered before the next.
pub open spec fn offered_in_turn(
    txs: Seq<Tx<Event>>,
    states: Seq<EventChannelState>,
    logs: Seq<EventLog>,
    offers: Seq<Event>,
    rs: Seq<Admission>,
    i: int,
) -> bool {
    &&& states[i].send_made(txs[i], logs[i], offers[i], rs[i], states[i + 1], logs[i + 1])
    &&& somebody_received(logs[i], logs[i + 1])
}

/// Of a run of events that are offered to a new channel while somebody receives,
/// the channel takes the first ones up to its capacity, in their order, and drops
/// and counts the rest. Through which of its senders they come does not matter: all
/// of them lead to the one receiver.
pub proof fn law_channel_takes_its_capacity(
    txs: Seq<Tx<Event>>,
    rx: Rx<Event>,
    states: Seq<EventChannelState>,
    logs: Seq<EventLog>,
    offers: Seq<Event>,
    rs: Seq<Admission>,
)
    requires
        txs.len() == offers.len(),
        forall|i: int| 0 <= i < txs.len() ==> events::one_channel(#[trigger] txs[i], rx),
        states.len() == offers.len() + 1,
        logs.len() == offers.len() + 1,
        rs.len() == offers.len(),
        offers.len() <= u64::MAX,
        states[0] == (EventChannelState { depth: 0, dropped: 0 }),
        logs[0].ends() == Seq::<Tx<Event>>::empty(),
        logs[0].tried() == Seq::<(Event, bool)>::empty(),
        forall|i: int|
            0 <= i < offers.len() ==> #[trigger] offered_in_turn(txs, states, logs, offers, rs, i),
    ensures
        ({
            let n = offers.len();
            let taken = if n <= EVENT_CHANNEL_CAPACITY {
                n as int
            } else {
                EVENT_CHANNEL_CAPACITY as int
            };
            &&& logs.last().leads_to(rx)
            &&& states.last().depth == taken
            &&& states.last().dropped == n - taken
            &&& logs.last().sent() == offers.take(taken)
            &&& states.last().waiting(logs.last().sent()) == offers.take(taken)
        }),
    decreases offers.len(),
{
    if offers.len() > 0 {
        let n = offers.len() - 1;
        let (t, s, l, e, r) = (
            txs.drop_last(),
            states.drop_last(),
            logs.drop_last(),
            offers.drop_last(),
            rs.drop_last(),
        );
        assert forall|i: int| 0 <= i < e.len() implies #[trigger] offered_in_turn(t, s, l, e, r, i) by {
            assert(offered_in_turn(txs, states, logs, offers, rs, i));
        }
        law_channel_takes_its_capacity(t, rx, s, l, e, r);
        assert(offered_in_turn(txs, states, logs, offers, rs, n));
        assert(s.last() == states[n] && l.last() == logs[n]);
        lemma_taken_of_push(logs[n].tried(), offers[n], true);
        if n < EVENT_CHANNEL_CAPACITY {
            assert(e.take(n) == e);
            assert(offers.take(n + 1) == e.push(offers[n]));
        } else {
            assert(offers.take(EVENT_CHANNEL_CAPACITY as int) == e.take(
                EVENT_CHANNEL_CAPACITY as int,
            ));
        }
    }
}

/// A delivery takes the first event off the queue and leaves the rest in order.
pub proof fn law_delivery_takes_the_first(state: EventChannelState, sent: Seq<Event>)
    requires
        0 < state.depth <= sent.len(),
    ensures
        state.delivered().waiting(sent) == state.waiting(sent).drop_first(),
{
}

/// A delivery makes room: the event after it is taken again, and nothing more is
/// dropped.
pub proof fn law_channel_recovers(state: EventChannelState)
    requires
        state.wf(),
        state.depth > 0,
    ensures
        state.delivered().depth < EVENT_CHANNEL_CAPACITY,
        state.delivered().offered() == state,
{
}

/// How many of the first `n` occurrences are worth a log line.
pub open spec fn log_lines(n: nat) -> nat
    decreases n,
{
    if n == 0 {
        0
    } else {
        log_lines((n - 1) as nat) + if worker::worth_logging(n as u64) {
            1nat
        } else {
            0
        }
    }
}

/// The first occurrence is logged, and then one in a hundred.
pub proof fn law_log_cadence(n: nat)
    requires
        n <= u64::MAX,
    ensures
        log_lines(n) == if n == 0 {
            0
        } else {
            1 + n / COUNT_LOG_EVERY as nat
        },
    decreases n,
{
    if n > 0 {
        law_log_cadence((n - 1) as nat);
    }
}

/// A slot that is given back is a slot that can be taken: the two undo each
/// other, and neither touches anything else.
pub proof fn law_slots_are_given_back(view: WorkerView)
    requires
        view.active_connections <= view.max_connections,
    ensures
        view.has_room() ==> view.acquired().released() == view,
        view.active_connections > 0 ==> view.released().has_room()
            && view.released().acquired() == view,
{
}

/// Every session gives its slot back, however it ended. A refusal is counted and
/// changes nothing else.
pub proof fn law_every_session_frees_its_slot(
    view: WorkerView,
    result: Result<SessionOutcome, Error>,
)
    requires
        view.active_connections < view.max_connections,
        view.refused_connects < u64::MAX,
    ensures
        ({
            let after = worker::after_session(view.acquired(), result);
            &&& after.active_connections == view.active_connections
            &&& after.max_connections == view.max_connections
            &&& after.refused_connects == view.refused_connects + if result matches Ok(
                SessionOutcome::Refused,
            ) {
                1int
            } else {
                0
            }
        }),
{
}

/// A buffer that is given back while the thread's cache has room is the one that is
/// taken next, without the bytes that it held, and the pool and the cache are then
/// as they were.
pub proof fn law_buffers_are_reused(
    buffer_size: usize,
    max_pool_size: usize,
    pool: Seq<BytesMut>,
    local: Seq<BytesMut>,
    b: BytesMut,
    pool_between: Seq<BytesMut>,
    local_between: Seq<BytesMut>,
    pool_after: Seq<BytesMut>,
    local_after: Seq<BytesMut>,
    r: BytesMut,
)
    requires
        local.len() < pool::LOCAL_CACHE_SIZE,
        BufferPool::gave(max_pool_size, pool, local, b, pool_between, local_between),
        BufferPool::took(buffer_size, pool_between, local_between, pool_after, local_after, r),
    ensures
        r == buffer::cleared(b),
        buffer::held(r).len() == 0,
        buffer::asked(r) == buffer::asked(b),
        pool_after == pool,
        local_after == local,
{
}

/// Neither the pool nor a thread's cache grows past its bound, and neither ever
/// keeps a buffer that holds a byte.
pub proof fn law_pool_is_bounded(
    max_pool_size: usize,
    pool: Seq<BytesMut>,
    local: Seq<BytesMut>,
    b: BytesMut,
    pool_after: Seq<BytesMut>,
    local_after: Seq<BytesMut>,
)
    requires
        pool.len() <= max_pool_size,
        local.len() <= pool::LOCAL_CACHE_SIZE,
        pool::all_cleared(pool),
        pool::all_cleared(local),
        BufferPool::gave(max_pool_size, pool, local, b, pool_after, local_after),
    ensures
        pool_after.len() <= max_pool_size,
        local_after.len() <= pool::LOCAL_CACHE_SIZE,
        pool::all_cleared(pool_after),
        pool::all_cleared(local_after),
{
}

/// A reading is told by the first four bytes of a payload: what stands behind
/// them does not change it.
pub proof fn law_reading_ignores_the_rest(data: Seq<u8>, rest: Seq<u8>)
    requires
        data.len() >= 4,
    ensures
        event::reading(data + rest) == event::reading(data),
        event::reading(data) is Some,
{
}

/// Every reading can be reported: two bytes for the temperature and two for the
/// pressure bring it back.
pub proof fn law_readings_are_read_back(temperature: i16, pressure: u16)
    ensures
        ({
            let t = if temperature >= 0 {
                temperature as int
            } else {
                temperature + 65536
            };
            let data = seq![
                (t / 256) as u8,
                (t % 256) as u8,
                (pressure / 256) as u8,
                (pressure % 256) as u8,
            ];
            event::reading(data) == Some(Event::SensorV1 { temperature, pressure })
        }),
{
}

/// The workers' exits come to one result, whatever the later workers did: the
/// first failure decides.
pub proof fn law_first_failure_decides(exits: Seq<WorkerExit>, i: int, j: int)
    requires
        startup::first_failure(exits, i),
        startup::first_failure(exits, j),
    ensures
        i == j,
{
}

/// The word to go needs a good start of every worker, and nothing else. `all` are
/// the reports as they come, of which the first `n` were heard.
pub proof fn law_go_needs_every_worker(
    all: Seq<Report>,
    n: nat,
    num_workers: nat,
    r: Result<(), Error>,
)
    requires
        n <= all.len(),
        startup::heard(all.take(n as int), num_workers, r),
    ensures
        r is Ok <==> all.len() >= num_workers && startup::good_starts(all, num_workers as int),
{
    let reports = all.take(n as int);
    assert(reports.last() == all[n - 1]);
    assert forall|i: int| 0 <= i < n - 1 implies startup::is_good(#[trigger] all[i]) by {
        assert(startup::is_good(reports[i]));
    }
}

/// A start that fails, fails with its earliest failure: every report before it was
/// good, and no worker is listened to behind it.
pub proof fn law_the_earliest_failure_is_told(
    all: Seq<Report>,
    n: nat,
    num_workers: nat,
    e: Error,
)
    requires
        n <= all.len(),
        startup::heard(all.take(n as int), num_workers, Err(e)),
    ensures
        n > 0,
        startup::good_starts(all, n - 1),
        !startup::is_good(all[n - 1]),
        startup::report_error(all[n - 1], e),
{
    let reports = all.take(n as int);
    assert(reports.last() == all[n - 1]);
    assert forall|i: int| 0 <= i < n - 1 implies startup::is_good(#[trigger] all[i]) by {
        assert(startup::is_good(reports[i]));
    }
}

/// The reports alone decide how many of them are heard, and what the word is.
pub proof fn law_the_reports_decide(
    all: Seq<Report>,
    m: nat,
    n: nat,
    num_workers: nat,
    a: Result<(), Error>,
    b: Result<(), Error>,
)
    requires
        m <= all.len(),
        n <= all.len(),
        startup::heard(all.take(m as int), num_workers, a),
        startup::heard(all.take(n as int), num_workers, b),
    ensures
        m == n,
        a is Ok == b is Ok,
{
    law_go_needs_every_worker(all, m, num_workers, a);
    law_go_needs_every_worker(all, n, num_workers, b);
    if let Err(e) = a {
        law_the_earliest_failure_is_told(all, m, num_workers, e);
    }
    if let Err(e) = b {
        law_the_earliest_failure_is_told(all, n, num_workers, e);
    }
}

/// A broker that is not running never runs again: a worker that has finished stays
/// finished, and one of them is enough.
pub proof fn law_a_stopped_broker_stays_stopped(earlier: Seq<bool>, later: Seq<bool>)
    requires
        later.len() == earlier.len(),
        forall|i: int| 0 <= i < earlier.len() && #[trigger] earlier[i] ==> later[i],
    ensures
        !startup::running(earlier) ==> !startup::running(later),
        startup::running(later) ==> startup::running(earlier),
{
}

/// A shutdown happens once: whoever comes second, by whatever way, finds no ends
/// and changes nothing.
pub proof fn law_shutdown_happens_once<T>(
    ends: SignalEnds<T>,
    first: Option<Vec<T>>,
    between: SignalEnds<T>,
    past_barrier: bool,
    second: Option<Vec<T>>,
    after: SignalEnds<T>,
)
    requires
        ends.gave(first, between),
        between.gave(second, after) || between.exited(past_barrier, second, after),
    ensures
        first == ends.ends,
        second is None,
        after.ends is None,
{
}

/// A worker that exits before the barrier leaves the shutdown to others: they
/// still get every end.
pub proof fn law_early_exit_leaves_the_signal<T>(
    ends: SignalEnds<T>,
    early: Option<Vec<T>>,
    between: SignalEnds<T>,
    taken: Option<Vec<T>>,
    after: SignalEnds<T>,
)
    requires
        ends.exited(false, early, between),
        between.gave(taken, after),
    ensures
        early is None,
        taken == ends.ends,
{
}

/// A drain ends. Without sessions it ends at once, with sessions when the grace
/// period is over, and a wait that is run out in full is the last: no worker
/// waits past the grace period.
pub proof fn law_drain_ends(active: usize, drain_timeout_secs: u64, elapsed_nanos: u128)
    ensures
        active == 0 ==> worker::draining(active, drain_timeout_secs, elapsed_nanos)
            == Drain::Done,
        elapsed_nanos >= drain_timeout_secs * 1_000_000_000 ==> !(worker::draining(
            active,
            drain_timeout_secs,
            elapsed_nanos,
        ) is Wait),
        worker::draining(active, drain_timeout_secs, elapsed_nanos) matches Drain::Wait(left) ==> {
            &&& 0 < left
            &&& elapsed_nanos + left <= drain_timeout_secs * 1_000_000_000
            &&& worker::draining(active, drain_timeout_secs, (elapsed_nanos + left) as u128)
                == Drain::CutOff
        },
{
}

/// A worker takes connections only past the startup barrier, and only the word
/// to go takes it there.
pub proof fn law_only_the_word_opens_the_barrier(
    before: Worker,
    event: WorkerEvent,
    after: Worker,
    r: WorkerNext,
)
    requires
        worker::awaits(before.stage, event),
        before.moved(event, after, r),
        before.stage is Accepting || before.stage is Draining ==> before.past_barrier,
    ensures
        after.stage is Accepting || after.stage is Draining ==> after.past_barrier,
        after.past_barrier && !before.past_barrier ==> event == WorkerEvent::Word(Some(true)),
        r is Serve ==> before.past_barrier,
{
}

/// A worker that was told to stop serves nobody new, and takes no connection
/// again: all that is left to it is to wait and to end.
pub proof fn law_a_stopped_worker_serves_nobody_new(
    before: Worker,
    event: WorkerEvent,
    after: Worker,
    r: WorkerNext,
)
    requires
        worker::awaits(before.stage, event),
        before.moved(event, after, r),
        event is Stopped || before.stage is Draining,
    ensures
        after.stage is Draining || after.stage is Ended,
        r is Wait || r is End,
        r is Wait <==> after.stage is Draining,
        after.state@ == before.state@,
{
}

/// A worker without a free slot rejects a connection, and one with a free slot
/// serves it: it is never left waiting.
pub proof fn law_a_free_slot_is_used(before: Worker, after: Worker, r: WorkerNext)
    requires
        before.stage is Accepting,
        before.moved(WorkerEvent::Connection, after, r),
    ensures
        before.state@.has_room() ==> r is Serve,
        !before.state@.has_room() ==> r is Reject && after.state@ == before.state@,
        after.stage is Accepting,
{
}

} // verus!
