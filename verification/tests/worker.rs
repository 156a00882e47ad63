use std::future::Future;
use std::sync::atomic::{AtomicBool, Ordering};
use std::sync::Arc;
use std::task::{Context, Poll, Wake, Waker};
use uring_mqtt::broker::event::Event;
use uring_mqtt::broker::handler::SessionOutcome;
use uring_mqtt::broker::packet::Violation;
use uring_mqtt::broker::worker::{
    event_channel, goes_on, should_log_count, Admission, Arrival, Drain, EventChannel,
    EventChannelState, EventReceiver, SessionEnd, Stage, Worker, WorkerEvent, WorkerNext, WorkerState,
    EVENT_CHANNEL_CAPACITY,
};
use uring_mqtt::error::{Error, IoError, IoErrorKind};

struct FlagWaker {
    flag: AtomicBool,
}

impl Wake for FlagWaker {
    fn wake(self: Arc<Self>) {
        self.flag.store(true, Ordering::SeqCst);
    }
    fn wake_by_ref(self: &Arc<Self>) {
        self.flag.store(true, Ordering::SeqCst);
    }
}

fn flag_waker() -> (Arc<FlagWaker>, Waker) {
    let w = Arc::new(FlagWaker {
        flag: AtomicBool::new(false),
    });
    let waker = Waker::from(w.clone());
    (w, waker)
}

/// One poll of the receiving end, counted.
fn try_recv(
    rx: &mut EventReceiver,
    state: &mut EventChannelState,
    waker: &Waker,
) -> Poll<Option<Event>> {
    let mut fut = Box::pin(rx.rx.recv());
    let mut ctx = Context::from_waker(waker);
    match fut.as_mut().poll(&mut ctx) {
        Poll::Ready(item) => Poll::Ready(state.received(item)),
        Poll::Pending => Poll::Pending,
    }
}

fn reading(temperature: i16, pressure: u16) -> Event {
    Event::SensorV1 {
        temperature,
        pressure,
    }
}

#[test]
fn event_yielded_when_channel_not_full() {
    let EventChannel {
        sender: tx,
        receiver: mut rx,
        mut state,
        mut log,
    } = event_channel(0);
    tx.send(&mut state, &mut log, reading(2500, 1013));
    let (waker_arc, waker) = flag_waker();
    match try_recv(&mut rx, &mut state, &waker) {
        Poll::Ready(Some(Event::SensorV1 {
            temperature,
            pressure,
        })) => {
            assert_eq!(temperature, 2500);
            assert_eq!(pressure, 1013);
        }
        other => panic!("expected Ready(Some), got {other:?}"),
    }
    drop(tx);
    assert!(matches!(
        try_recv(&mut rx, &mut state, &waker),
        Poll::Ready(None)
    ));
    assert!(!waker_arc.flag.load(Ordering::SeqCst));
}

#[test]
fn channel_accepts_exactly_capacity_and_drops_the_rest() {
    let EventChannel {
        sender: tx1,
        receiver: mut rx,
        mut state,
        mut log,
    } = event_channel(0);
    let tx2 = tx1.clone();
    let total = EVENT_CHANNEL_CAPACITY + 3;
    for i in 0..total {
        let t = i16::try_from(i).expect("fixture index fits i16");
        let p = u16::try_from(i).expect("fixture index fits u16");
        if i % 2 == 0 {
            tx1.send(&mut state, &mut log, reading(t, p));
        } else {
            tx2.send(&mut state, &mut log, reading(t, p));
        }
    }
    assert_eq!(state.dropped, 3);

    drop(tx1);
    drop(tx2);

    let (_, waker) = flag_waker();
    let mut received = Vec::with_capacity(EVENT_CHANNEL_CAPACITY);
    for _ in 0..EVENT_CHANNEL_CAPACITY {
        match try_recv(&mut rx, &mut state, &waker) {
            Poll::Ready(Some(Event::SensorV1 { temperature, .. })) => {
                received.push(temperature);
            }
            other => panic!("expected Ready(Some), got {other:?}"),
        }
    }
    assert!(matches!(
        try_recv(&mut rx, &mut state, &waker),
        Poll::Ready(None)
    ));

    assert_eq!(received.len(), EVENT_CHANNEL_CAPACITY);
    for (idx, temp) in received.iter().enumerate() {
        assert_eq!(
            *temp,
            i16::try_from(idx).expect("fixture index fits i16"),
            "received index {idx} out of order"
        );
    }
}

#[test]
fn sender_recovers_after_drain() {
    let EventChannel {
        sender: tx,
        receiver: mut rx,
        mut state,
        mut log,
    } = event_channel(0);
    let (_, waker) = flag_waker();

    for i in 0..EVENT_CHANNEL_CAPACITY {
        tx.send(
            &mut state,
            &mut log,
            reading(i16::try_from(i).expect("fits i16"), 0),
        );
    }
    tx.send(&mut state, &mut log, reading(9999, 0));
    assert_eq!(state.dropped, 1);

    for _ in 0..EVENT_CHANNEL_CAPACITY {
        match try_recv(&mut rx, &mut state, &waker) {
            Poll::Ready(Some(_)) => {}
            other => panic!("expected Ready(Some), got {other:?}"),
        }
    }

    tx.send(&mut state, &mut log, reading(1234, 7));
    match try_recv(&mut rx, &mut state, &waker) {
        Poll::Ready(Some(Event::SensorV1 {
            temperature,
            pressure,
        })) => {
            assert_eq!(temperature, 1234);
            assert_eq!(pressure, 7);
        }
        other => panic!("expected Ready(Some), got {other:?}"),
    }
    drop(tx);
}

#[test]
fn recv_pending_is_woken_by_send() {
    let EventChannel {
        sender: tx,
        receiver: mut rx,
        mut state,
        mut log,
    } = event_channel(0);
    let (waker_arc, waker) = flag_waker();

    assert!(matches!(
        try_recv(&mut rx, &mut state, &waker),
        Poll::Pending
    ));
    assert!(
        !waker_arc.flag.load(Ordering::SeqCst),
        "waker fired without cause"
    );

    tx.send(&mut state, &mut log, reading(2500, 1013));
    assert!(
        waker_arc.flag.load(Ordering::SeqCst),
        "send did not wake pending recv"
    );

    match try_recv(&mut rx, &mut state, &waker) {
        Poll::Ready(Some(Event::SensorV1 {
            temperature,
            pressure,
        })) => {
            assert_eq!(temperature, 2500);
            assert_eq!(pressure, 1013);
        }
        other => panic!("expected Ready(Some), got {other:?}"),
    }
}

#[test]
fn dropping_last_sender_wakes_pending_recv() {
    let EventChannel {
        sender: tx,
        receiver: mut rx,
        mut state,
        mut log,
    } = event_channel(0);
    let (waker_arc, waker) = flag_waker();

    assert!(matches!(
        try_recv(&mut rx, &mut state, &waker),
        Poll::Pending
    ));
    assert!(!waker_arc.flag.load(Ordering::SeqCst));

    drop(tx);
    assert!(
        waker_arc.flag.load(Ordering::SeqCst),
        "dropping the only sender did not wake pending recv"
    );
    assert!(matches!(
        try_recv(&mut rx, &mut state, &waker),
        Poll::Ready(None)
    ));
}

#[test]
fn drop_warns_on_first_and_every_hundredth() {
    let EventChannel {
        sender: tx,
        receiver: _rx,
        mut state,
        mut log,
    } = event_channel(7);
    assert_eq!(tx.worker_id, 7);

    for i in 0..EVENT_CHANNEL_CAPACITY {
        tx.send(
            &mut state,
            &mut log,
            reading(i16::try_from(i).expect("fits i16"), 0),
        );
    }
    let mut warned = Vec::new();
    for _ in 0..100 {
        match tx.send(&mut state, &mut log, reading(-1, 0)) {
            Admission::Drop(Some(total)) => warned.push(total),
            Admission::Drop(None) => {}
            other => panic!("expected Drop, got {other:?}"),
        }
    }
    assert_eq!(state.dropped, 100);
    assert_eq!(warned, vec![1, 100]);
}

#[test]
fn closed_receiver_discard_is_not_counted_or_warned() {
    {
        let EventChannel {
            sender: tx,
            receiver: rx,
            mut state,
            mut log,
        } = event_channel(11);
        drop(rx);
        assert_eq!(tx.send(&mut state, &mut log, reading(0, 0)), Admission::Discard);
        assert_eq!(
            state.dropped, 0,
            "closed-receiver discard must not increment the counter"
        );
    }
    {
        let EventChannel {
            sender: tx,
            receiver: rx,
            mut state,
            mut log,
        } = event_channel(11);
        for i in 0..EVENT_CHANNEL_CAPACITY {
            assert_eq!(
                tx.send(
                    &mut state,
                    &mut log,
                    reading(i16::try_from(i).expect("fits i16"), 0)
                ),
                Admission::Enqueue
            );
        }
        assert_eq!(
            tx.send(&mut state, &mut log, reading(-1, 0)),
            Admission::Drop(Some(1))
        );
        assert_eq!(tx.send(&mut state, &mut log, reading(-2, 0)), Admission::Drop(None));
        assert_eq!(state.dropped, 2, "two overflows count two");

        drop(rx);
        assert_eq!(tx.send(&mut state, &mut log, reading(-3, 0)), Admission::Discard);
        assert_eq!(
            state.dropped, 2,
            "closed-receiver discards must not add to dropped total"
        );
    }
}

#[test]
fn should_log_count_cadence() {
    assert!(should_log_count(1));
    assert!(should_log_count(100));
    assert!(should_log_count(200));
    assert!(!should_log_count(0));
    assert!(!should_log_count(2));
    assert!(!should_log_count(99));
    assert!(!should_log_count(101));
    assert!(!should_log_count(150));
}

#[test]
fn connection_limit_is_enforced_and_released() {
    let mut state = WorkerState::new(0, 2);
    assert!(state.try_acquire());
    assert!(state.try_acquire());
    assert!(!state.try_acquire());
    assert_eq!(state.active_count(), 2);
    state.release();
    assert_eq!(state.active_count(), 1);
    assert!(state.try_acquire());
    assert_eq!(state.active_count(), 2);
}

#[test]
fn note_refused_increments_lifetime_total() {
    let mut state = WorkerState::new(0, 2);
    assert_eq!(state.refused_total(), 0);
    state.note_refused();
    state.note_refused();
    state.note_refused();
    assert_eq!(state.refused_total(), 3);
}

#[test]
fn closure_goes_before_fullness() {
    let mut full = EventChannelState {
        depth: EVENT_CHANNEL_CAPACITY,
        dropped: 99,
    };
    assert_eq!(full.consider(true), Admission::Discard);
    assert_eq!(full.dropped, 99);
    assert_eq!(full.consider(false), Admission::Drop(Some(100)));
    assert_eq!(full.dropped, 100);
    let mut empty = EventChannelState::new();
    assert_eq!(empty.consider(false), Admission::Enqueue);
    assert_eq!(empty.depth, 0);
    assert_eq!(empty.on_sent(false), Admission::Discard);
    assert_eq!(empty.depth, 0);
    assert_eq!(empty.on_sent(true), Admission::Enqueue);
    assert_eq!(empty.depth, 1);
}

#[test]
fn only_the_word_to_go_opens_the_barrier() {
    assert!(goes_on(Some(true)));
    assert!(!goes_on(Some(false)));
    assert!(!goes_on(None));
}

#[test]
fn a_slot_is_freed_however_a_session_ends() {
    let mut worker = Worker::new(3, 1, 5);
    assert_eq!(worker.state.id(), 3);
    let reset = || {
        Error::Io(IoError::Transport {
            kind: IoErrorKind::ConnectionReset,
            message: String::new(),
        })
    };
    let ends: Vec<(Result<SessionOutcome, Error>, SessionEnd)> = vec![
        (
            Ok(SessionOutcome::Served),
            SessionEnd {
                refused: None,
                error: false,
            },
        ),
        (
            Ok(SessionOutcome::Refused),
            SessionEnd {
                refused: Some(1),
                error: false,
            },
        ),
        (
            Ok(SessionOutcome::Violation(Violation::DuplicateConnect)),
            SessionEnd {
                refused: None,
                error: false,
            },
        ),
        (
            Err(reset()),
            SessionEnd {
                refused: None,
                error: false,
            },
        ),
        (
            Err(Error::Protocol("x".to_string())),
            SessionEnd {
                refused: None,
                error: true,
            },
        ),
        (
            Ok(SessionOutcome::Refused),
            SessionEnd {
                refused: None,
                error: false,
            },
        ),
    ];
    for (result, expected) in ends {
        assert_eq!(worker.on_connection(), Arrival::Serve(None));
        assert_eq!(worker.on_connection(), Arrival::Reject);
        assert_eq!(worker.state.active_count(), 1);
        assert_eq!(worker.on_session_end(&result), expected);
        assert_eq!(worker.state.active_count(), 0);
    }
    assert_eq!(worker.accepted, 6);
    assert_eq!(worker.state.refused_total(), 2);
}

#[test]
fn every_hundredth_connection_is_told() {
    let mut worker = Worker::new(0, 250, 5);
    let told: Vec<u64> = (0..250)
        .filter_map(|_| match worker.on_connection() {
            Arrival::Serve(count) => count,
            Arrival::Reject => panic!("slots are free"),
        })
        .collect();
    assert_eq!(told, vec![100, 200]);
    assert_eq!(worker.on_connection(), Arrival::Reject);
}

#[test]
fn a_drain_waits_for_sessions_and_not_for_ever() {
    let busy = |drain_timeout_secs| {
        let mut worker = Worker::new(0, 2, drain_timeout_secs);
        worker.on_connection();
        worker
    };
    assert_eq!(Worker::new(0, 2, 30).on_drain(0), Drain::Done);
    let mut worker = busy(1);
    assert_eq!(worker.on_drain(0), Drain::Wait(1_000_000_000));
    assert_eq!(worker.on_drain(999_999_999), Drain::Wait(1));
    assert_eq!(worker.on_drain(1_000_000_000), Drain::CutOff);
    assert_eq!(busy(0).on_drain(0), Drain::CutOff);
    assert_eq!(
        busy(u64::MAX).on_drain(0),
        Drain::Wait(31_536_000_000_000_000)
    );
    worker.on_session_end(&Ok(SessionOutcome::Served));
    assert_eq!(worker.on_drain(2_000_000_000), Drain::Done);
}

#[test]
fn a_worker_from_the_barrier_to_its_end() {
    let mut worker = Worker::new(0, 1, 1);
    assert_eq!(worker.stage, Stage::Waiting);
    assert!(!worker.past_barrier);
    assert_eq!(
        worker.step(WorkerEvent::Word(Some(true))),
        WorkerNext::Accept
    );
    assert!(worker.past_barrier);
    assert_eq!(
        worker.step(WorkerEvent::AcceptFailed),
        WorkerNext::Pause(100)
    );
    assert_eq!(
        worker.step(WorkerEvent::Connection),
        WorkerNext::Serve(None)
    );
    assert_eq!(worker.step(WorkerEvent::Connection), WorkerNext::Reject);
    assert_eq!(
        worker.step(WorkerEvent::Stopped),
        WorkerNext::Wait(1_000_000_000)
    );
    assert_eq!(worker.stage, Stage::Draining);
    assert_eq!(
        worker.step(WorkerEvent::Waited(400_000_000)),
        WorkerNext::Wait(600_000_000)
    );
    assert_eq!(
        worker.step(WorkerEvent::Waited(1_000_000_000)),
        WorkerNext::End(1)
    );
    assert_eq!(worker.stage, Stage::Ended);
    assert!(worker.past_barrier);
}

#[test]
fn a_worker_without_the_word_aborts() {
    for word in [Some(false), None] {
        let mut worker = Worker::new(0, 1, 1);
        assert_eq!(worker.step(WorkerEvent::Word(word)), WorkerNext::Abort);
        assert_eq!(worker.stage, Stage::Ended);
        assert!(!worker.past_barrier);
    }
}

#[test]
fn a_worker_without_sessions_ends_at_once() {
    let mut worker = Worker::new(0, 4, 30);
    worker.step(WorkerEvent::Word(Some(true)));
    worker.step(WorkerEvent::Connection);
    worker.on_session_end(&Ok(SessionOutcome::Served));
    assert_eq!(worker.step(WorkerEvent::Stopped), WorkerNext::End(0));
}
