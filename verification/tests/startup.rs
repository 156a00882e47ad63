use std::sync::mpsc::{Receiver, Sender};
use uring_mqtt::broker::config::BrokerConfig;
use uring_mqtt::broker::startup::{
    all_running, fan_out, go_lines, join_result, keep_first, supervise_startup, MqttBroker,
    SignalEnds, StartupTally, WorkerExit,
};
use uring_mqtt::error::Error;
use uring_mqtt::record::workers::Reports;

fn supervise(
    ready_rx: &Receiver<(usize, Result<(), Error>)>,
    go_txs: &[Sender<bool>],
    num_workers: usize,
) -> Result<(), Error> {
    supervise_startup(
        &mut Reports::new(ready_rx),
        &mut go_lines(go_txs),
        num_workers,
    )
}

#[test]
fn zero_workers_is_config_error() {
    let config = BrokerConfig::new("127.0.0.1:0").num_workers(0);
    match MqttBroker::worker_count(&config, Some(8)) {
        Err(Error::Worker(msg)) => {
            assert!(
                msg.contains("worker") || msg.contains("at least 1"),
                "message should mention workers, got: {msg}"
            );
        }
        other => panic!("expected Err(Worker), got {other:?}"),
    }
}

#[test]
fn workers_are_configured_counted_or_four() {
    let auto = BrokerConfig::new("127.0.0.1:0");
    assert!(matches!(MqttBroker::worker_count(&auto, Some(8)), Ok(8)));
    assert!(matches!(MqttBroker::worker_count(&auto, None), Ok(4)));
    let fixed = BrokerConfig::new("127.0.0.1:0").num_workers(3);
    assert!(matches!(MqttBroker::worker_count(&fixed, Some(8)), Ok(3)));
}

#[test]
fn supervise_all_ok_sends_go_to_every_worker() {
    let (ready_tx, ready_rx) = std::sync::mpsc::channel();
    let (go1_tx, go1_rx) = std::sync::mpsc::channel();
    let (go2_tx, go2_rx) = std::sync::mpsc::channel();
    let go_txs = vec![go1_tx, go2_tx];

    ready_tx.send((0, Ok(()))).expect("send 0");
    ready_tx.send((1, Ok(()))).expect("send 1");
    drop(ready_tx);

    assert!(matches!(supervise(&ready_rx, &go_txs, 2), Ok(())));
    assert_eq!(go1_rx.try_recv(), Ok(true));
    assert_eq!(go2_rx.try_recv(), Ok(true));
}

#[test]
fn supervise_first_error_aborts_every_worker() {
    let (ready_tx, ready_rx) = std::sync::mpsc::channel();
    let (go1_tx, go1_rx) = std::sync::mpsc::channel();
    let (go2_tx, go2_rx) = std::sync::mpsc::channel();
    let go_txs = vec![go1_tx, go2_tx];

    ready_tx.send((0, Ok(()))).expect("send 0 ok");
    ready_tx
        .send((1, Err(Error::Worker("bind failed".into()))))
        .expect("send 1 err");
    drop(ready_tx);

    match supervise(&ready_rx, &go_txs, 2) {
        Err(Error::Worker(msg)) => assert_eq!(msg, "bind failed"),
        other => panic!("expected Err(Worker(\"bind failed\")), got {other:?}"),
    }
    assert_eq!(go1_rx.try_recv(), Ok(false));
    assert_eq!(go2_rx.try_recv(), Ok(false));
}

#[test]
fn supervise_tolerates_a_dead_go_receiver() {
    {
        let (ready_tx, ready_rx) = std::sync::mpsc::channel();
        let (dead_tx, dead_rx) = std::sync::mpsc::channel();
        let (live_tx, live_rx) = std::sync::mpsc::channel();
        drop(dead_rx);
        let go_txs = vec![dead_tx, live_tx];

        ready_tx.send((0, Ok(()))).expect("send 0");
        ready_tx.send((1, Ok(()))).expect("send 1");
        drop(ready_tx);

        assert!(matches!(supervise(&ready_rx, &go_txs, 2), Ok(())));
        assert_eq!(live_rx.try_recv(), Ok(true));
    }

    {
        let (ready_tx, ready_rx) = std::sync::mpsc::channel();
        let (dead_tx, dead_rx) = std::sync::mpsc::channel();
        let (live_tx, live_rx) = std::sync::mpsc::channel();
        drop(dead_rx);
        let go_txs = vec![dead_tx, live_tx];

        ready_tx
            .send((0, Err(Error::Worker("bind failed".into()))))
            .expect("send 0 err");
        drop(ready_tx);

        assert!(supervise(&ready_rx, &go_txs, 2).is_err());
        assert_eq!(live_rx.try_recv(), Ok(false));
    }
}

#[test]
fn supervise_premature_disconnect_aborts_every_worker() {
    let (ready_tx, ready_rx) = std::sync::mpsc::channel();
    let (go1_tx, go1_rx) = std::sync::mpsc::channel();
    let (go2_tx, go2_rx) = std::sync::mpsc::channel();
    let (go3_tx, go3_rx) = std::sync::mpsc::channel();
    let go_txs = vec![go1_tx, go2_tx, go3_tx];

    ready_tx.send((0, Ok(()))).expect("send 0 ok");
    drop(ready_tx);

    match supervise(&ready_rx, &go_txs, 3) {
        Err(Error::Worker(_)) => {}
        other => panic!("expected Err(Worker), got {other:?}"),
    }
    assert_eq!(go1_rx.try_recv(), Ok(false));
    assert_eq!(go2_rx.try_recv(), Ok(false));
    assert_eq!(go3_rx.try_recv(), Ok(false));
}

#[test]
fn the_tally_waits_for_every_worker() {
    let mut tally = StartupTally { reported: 0 };
    assert!(tally.on_report(3, Some(Ok(()))).is_none());
    assert!(tally.on_report(3, Some(Ok(()))).is_none());
    assert!(matches!(tally.on_report(3, Some(Ok(()))), Some(Ok(()))));
    assert_eq!(tally.reported, 3);

    let mut gone = StartupTally { reported: 1 };
    match gone.on_report(3, None) {
        Some(Err(Error::Worker(text))) => {
            assert_eq!(text, "worker exited before reporting startup result");
        }
        other => panic!("expected an abort, got {other:?}"),
    }
    assert_eq!(gone.reported, 1);
}

#[test]
fn the_first_failure_is_the_join_result() {
    assert!(join_result(vec![WorkerExit::Done, WorkerExit::Done]).is_ok());
    assert!(join_result(vec![]).is_ok());
    match join_result(vec![
        WorkerExit::Done,
        WorkerExit::Failed(Error::Worker("first".to_string())),
        WorkerExit::Panicked,
    ]) {
        Err(Error::Worker(text)) => assert_eq!(text, "first"),
        other => panic!("expected the first failure, got {other:?}"),
    }
    match join_result(vec![WorkerExit::Panicked, WorkerExit::Failed(Error::Timeout)]) {
        Err(Error::Worker(text)) => assert_eq!(text, "worker thread panicked"),
        other => panic!("expected the panic, got {other:?}"),
    }
    assert!(matches!(
        keep_first(Some(Error::Timeout), WorkerExit::Panicked),
        Some(Error::Timeout)
    ));
    assert!(keep_first(None, WorkerExit::Done).is_none());
}

#[test]
fn a_broker_runs_while_every_worker_does() {
    assert!(all_running(&vec![false, false]));
    assert!(!all_running(&vec![false, true]));
    assert!(all_running(&vec![]));
}

#[test]
fn the_signal_is_given_once() {
    let mut ends = SignalEnds::new(vec!['a', 'b']);
    assert_eq!(ends.on_worker_exit(false), None);
    assert_eq!(ends.on_worker_exit(true), Some(vec!['a', 'b']));
    assert_eq!(ends.on_worker_exit(true), None);
    assert_eq!(ends.take(), None);

    let mut ends = SignalEnds::new(vec![1, 2, 3]);
    assert_eq!(ends.take(), Some(vec![1, 2, 3]));
    assert_eq!(ends.take(), None);
    assert_eq!(ends.on_worker_exit(true), None);
}

#[test]
fn every_worker_is_given_one_word() {
    for go in [true, false] {
        let (go1_tx, go1_rx) = std::sync::mpsc::channel();
        let (go2_tx, go2_rx) = std::sync::mpsc::channel();
        let go_txs = vec![go1_tx, go2_tx];
        fan_out(&mut go_lines(&go_txs), go);
        drop(go_txs);
        assert_eq!(go1_rx.iter().collect::<Vec<bool>>(), vec![go]);
        assert_eq!(go2_rx.iter().collect::<Vec<bool>>(), vec![go]);
    }
}

#[test]
fn reports_behind_the_first_failure_are_not_heard() {
    let (ready_tx, ready_rx) = std::sync::mpsc::channel();
    for name in ["first", "second"] {
        ready_tx
            .send((0, Err(Error::Worker(name.to_string()))))
            .expect("send");
    }
    match supervise(&ready_rx, &[], 3) {
        Err(Error::Worker(text)) => assert_eq!(text, "first"),
        other => panic!("expected the first failure, got {other:?}"),
    }
    assert!(ready_rx.try_recv().is_ok());
}

#[test]
fn a_stopped_broker_stays_stopped() {
    let looks = [
        vec![false, false],
        vec![false, true],
        vec![true, true],
    ];
    let running: Vec<bool> = looks.iter().map(all_running).collect();
    assert_eq!(running, vec![true, false, false]);
}
