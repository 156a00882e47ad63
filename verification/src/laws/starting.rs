//! How a broker starts, runs and stops, by what its workers report and how they end.

use crate::broker::config::BrokerConfig;
use crate::broker::startup;
use crate::broker::startup::{MqttBroker, SignalEnds, StartupTally, WorkerExit};
use crate::error::Error;
use crate::record::workers::{GoLine, Report, Reports};
use std::sync::mpsc::Sender;
use vstd::prelude::*;

verus! {

/// As many workers start as are configured, else one for each processor, else four. To
/// start none is an error.
pub proof fn law_workers_are_counted(
    config: BrokerConfig,
    processors: Option<usize>,
    r: Result<usize, Error>,
)
    requires
        call_ensures(MqttBroker::worker_count, (&config, processors), r),
    ensures
        ({
            let wanted = match (config.num_workers, processors) {
                (Some(n), _) => n,
                (None, Some(n)) => n,
                (None, None) => 4,
            };
            if wanted > 0 {
                r == Ok::<usize, Error>(wanted)
            } else {
                r matches Err(Error::Worker(text)) && text@ == "num_workers must be at least 1"@
            }
        }),
{
}

/// The word is to go exactly when every worker has reported a good start. Till one of
/// them reports a failure, or all of them fall silent, the reports are heard one by one,
/// and none behind it. Every worker is then given the same word, once: to go, or to
/// abort. The failure is the result.
pub proof fn law_all_start_or_none(
    ready: &mut Reports<'_>,
    go_txs: &mut Vec<GoLine<'_>>,
    num_workers: usize,
    r: Result<(), Error>,
)
    requires
        num_workers > 0,
        call_ensures(startup::supervise_startup, (ready, go_txs, num_workers), r),
    ensures
        ({
            let heard = old(ready).came().len() as int;
            let news = final(ready).came().skip(heard);
            &&& final(ready).came().take(heard) == old(ready).came()
            &&& final(ready).end() == old(ready).end()
            &&& 0 < news.len() <= num_workers
            &&& forall|i: int|
                0 <= i < news.len() - 1 ==> ((#[trigger] news[i]) matches Some(Ok(())))
            &&& match r {
                Ok(()) => {
                    &&& news.len() == num_workers
                    &&& news.last() matches Some(Ok(()))
                },
                Err(e) => match news.last() {
                    Some(Ok(())) => false,
                    Some(Err(f)) => e == f,
                    None => {
                        &&& e matches Error::Worker(text)
                        &&& text@ == "worker exited before reporting startup result"@
                    },
                },
            }
        }),
        final(go_txs)@.len() == old(go_txs)@.len(),
        forall|i: int|
            0 <= i < old(go_txs)@.len() ==> {
                &&& (#[trigger] final(go_txs)@[i]).end() == old(go_txs)@[i].end()
                &&& final(go_txs)@[i].sent() == old(go_txs)@[i].sent().push(r is Ok)
            },
{
    let heard = old(ready).came().len() as int;
    let news = final(ready).came().skip(heard);
    assert forall|i: int| 0 <= i < news.len() - 1 implies ((#[trigger] news[i]) matches Some(
        Ok(()),
    )) by {
        assert(startup::is_good(news[i]));
    }
    assert(startup::is_good(news.last()) <==> (news.last() matches Some(Ok(()))));
    assert forall|i: int| 0 <= i < old(go_txs)@.len() implies {
        &&& (#[trigger] final(go_txs)@[i]).end() == old(go_txs)@[i].end()
        &&& final(go_txs)@[i].sent() == old(go_txs)@[i].sent().push(r is Ok)
    } by {
        assert(old(go_txs)@[i].told(r is Ok, final(go_txs)@[i]));
    }
}

/// A report of a good start counts as one, and brings the word to go when it was the last
/// one missing. Any other brings its failure, and counts as none.
pub proof fn law_reports_are_counted(
    tally: &mut StartupTally,
    num_workers: usize,
    report: Report,
    r: Option<Result<(), Error>>,
)
    requires
        old(tally).reported < num_workers,
        call_ensures(StartupTally::on_report, (tally, num_workers, report), r),
    ensures
        match report {
            Some(Ok(())) => {
                &&& final(tally).reported == old(tally).reported + 1
                &&& r is Some <==> final(tally).reported == num_workers
                &&& r matches Some(word) ==> word is Ok
            },
            Some(Err(e)) => {
                &&& final(tally).reported == old(tally).reported
                &&& r == Some(Err::<(), Error>(e))
            },
            None => {
                &&& final(tally).reported == old(tally).reported
                &&& r matches Some(Err(Error::Worker(text)))
                &&& text@ == "worker exited before reporting startup result"@
            },
        },
{
}

/// Every worker is given the same word, once, on its own line.
pub proof fn law_the_word_reaches_every_line(
    ends: &[Sender<bool>],
    lines: Vec<GoLine<'_>>,
    told: &mut Vec<GoLine<'_>>,
    go: bool,
)
    requires
        call_ensures(startup::go_lines, (ends,), lines),
        *old(told) == lines,
        call_ensures(startup::fan_out, (told, go), ()),
    ensures
        lines@.len() == ends@.len(),
        final(told)@.len() == ends@.len(),
        forall|i: int|
            0 <= i < ends@.len() ==> {
                &&& (#[trigger] lines@[i]).end() == ends@[i]
                &&& lines@[i].sent().len() == 0
                &&& final(told)@[i].end() == ends@[i]
                &&& final(told)@[i].sent() == seq![go]
            },
{
    assert forall|i: int| 0 <= i < ends@.len() implies {
        &&& (#[trigger] lines@[i]).end() == ends@[i]
        &&& lines@[i].sent().len() == 0
        &&& final(told)@[i].end() == ends@[i]
        &&& final(told)@[i].sent() == seq![go]
    } by {
        assert(old(told)@[i].told(go, final(told)@[i]));
        assert(Seq::<bool>::empty().push(go) == seq![go]);
    }
}

/// The workers ended well exactly where each of them did. Else the result is the failure
/// of the first that did not, whatever the others did.
pub proof fn law_exits_come_to_the_first_failure(exits: Vec<WorkerExit>, r: Result<(), Error>)
    requires
        call_ensures(startup::join_result, (exits,), r),
    ensures
        r is Ok <==> forall|j: int| 0 <= j < exits@.len() ==> (#[trigger] exits@[j]) is Done,
        forall|i: int|
            #![trigger exits@[i]]
            0 <= i < exits@.len() && !(exits@[i] is Done) && (forall|j: int|
                0 <= j < i ==> (#[trigger] exits@[j]) is Done) ==> match exits@[i] {
                WorkerExit::Failed(e) => r == Err::<(), Error>(e),
                _ => r matches Err(Error::Worker(text)) && text@ == "worker thread panicked"@,
            },
{
    if let Err(e) = r {
        let first = choose|i: int| #[trigger]
            startup::first_failure(exits@, i) && startup::exit_error(exits@[i], e);
        assert(!(exits@[first] is Done));
        assert forall|i: int|
            #![trigger exits@[i]]
            0 <= i < exits@.len() && !(exits@[i] is Done) && (forall|j: int|
                0 <= j < i ==> (#[trigger] exits@[j]) is Done) implies match exits@[i] {
            WorkerExit::Failed(e) => r == Err::<(), Error>(e),
            _ => r matches Err(Error::Worker(text)) && text@ == "worker thread panicked"@,
        } by {
            assert(i == first);
        }
    }
}

/// The first failure stays, and the next exit is looked at only where there was none.
pub proof fn law_the_first_failure_stays(
    so_far: Option<Error>,
    exit: WorkerExit,
    r: Option<Error>,
)
    requires
        call_ensures(startup::keep_first, (so_far, exit), r),
    ensures
        match (so_far, exit) {
            (Some(e), _) => r == Some(e),
            (None, WorkerExit::Done) => r is None,
            (None, WorkerExit::Failed(e)) => r == Some(e),
            (None, WorkerExit::Panicked) => r matches Some(Error::Worker(text)) && text@
                == "worker thread panicked"@,
        },
{
}

/// A broker runs exactly as long as none of its workers has finished.
pub proof fn law_one_finished_worker_stops_the_broker(finished: Vec<bool>, r: bool)
    requires
        call_ensures(startup::all_running, (&finished,), r),
    ensures
        !r <==> exists|i: int| 0 <= i < finished@.len() && #[trigger] finished@[i],
{
}

/// The ends of the signal are there to be taken once: the first who takes them gets all
/// of them, and whoever comes after gets none.
pub proof fn law_the_signal_is_taken_once<T>(
    ends: Vec<T>,
    signal: &mut SignalEnds<T>,
    first: Option<Vec<T>>,
    again: &mut SignalEnds<T>,
    second: Option<Vec<T>>,
    exited: &mut SignalEnds<T>,
    past_barrier: bool,
    third: Option<Vec<T>>,
)
    requires
        call_ensures(SignalEnds::<T>::new, (ends,), *old(signal)),
        call_ensures(SignalEnds::<T>::take, (signal,), first),
        *old(again) == *final(signal),
        call_ensures(SignalEnds::<T>::take, (again,), second),
        *old(exited) == *final(signal),
        call_ensures(SignalEnds::<T>::on_worker_exit, (exited, past_barrier), third),
    ensures
        first == Some(ends),
        second is None,
        third is None,
{
}

/// A worker that exits past the barrier takes the signal for all of them. One that never
/// got that far leaves it as it is.
pub proof fn law_exits_past_the_barrier_signal<T>(
    signal: &mut SignalEnds<T>,
    past_barrier: bool,
    r: Option<Vec<T>>,
)
    requires
        call_ensures(SignalEnds::<T>::on_worker_exit, (signal, past_barrier), r),
    ensures
        past_barrier ==> r == old(signal).ends && final(signal).ends is None,
        !past_barrier ==> r is None && final(signal).ends == old(signal).ends,
{
}

} // verus!
