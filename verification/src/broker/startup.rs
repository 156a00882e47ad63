//! How a broker starts and stops: the number of workers, the startup barrier,
//! the one-shot shutdown signal, the sum of the workers' ends.

use crate::broker::config::BrokerConfig;
use crate::error::Error;
use crate::record::workers::{GoLine, Report, Reports};
use std::sync::mpsc::Sender;
use vstd::prelude::*;

verus! {

/// How many workers there are where neither the configuration nor the machine
/// says.
pub const FALLBACK_WORKERS: usize = 4;

/// The broker.
#[derive(Debug, Clone, Copy, PartialEq, Eq, Structural)]
pub struct MqttBroker;

impl MqttBroker {
    /// How many workers a configuration asks for on a machine with the given
    /// number of processors.
    pub open spec fn workers(configured: Option<usize>, processors: Option<usize>) -> usize {
        match (configured, processors) {
            (Some(n), _) => n,
            (None, Some(n)) => n,
            (None, None) => FALLBACK_WORKERS,
        }
    }

    /// How many workers to start: as many as configured, else one for each
    /// processor, else a fallback. None is an error.
    pub fn worker_count(config: &BrokerConfig, processors: Option<usize>) -> (r: Result<
        usize,
        Error,
    >)
        ensures
            ({
                let n = MqttBroker::workers(config.num_workers, processors);
                if n == 0 {
                    r matches Err(Error::Worker(text)) && text@
                        == "num_workers must be at least 1"@
                } else {
                    r == Ok::<usize, Error>(n)
                }
            }),
    {
        let n: usize = match config.num_workers {
            Some(n) => n,
            None => match processors {
                Some(n) => n,
                None => FALLBACK_WORKERS,
            },
        };
        if n == 0 {
            return Err(Error::Worker("num_workers must be at least 1".to_owned()));
        }
        Ok(n)
    }
}

/// Whether a report is one of a good start.
pub open spec fn is_good(report: Report) -> bool {
    report matches Some(Ok(_))
}

/// Whether the first `n` reports are good.
pub open spec fn good_starts(reports: Seq<Report>, n: int) -> bool {
    forall|i: int| 0 <= i < n ==> is_good(#[trigger] reports[i])
}

/// The word that a report brings, after `reported` good starts: to go, to abort,
/// or none yet.
pub open spec fn next_word(reported: nat, num_workers: nat, report: Report) -> Option<bool> {
    if !is_good(report) {
        Some(false)
    } else if reported + 1 == num_workers {
        Some(true)
    } else {
        None
    }
}

/// Whether `e` is the error that a report stands for.
pub open spec fn report_error(report: Report, e: Error) -> bool {
    match report {
        Some(Ok(())) => false,
        Some(Err(f)) => e == f,
        None => e matches Error::Worker(text) && text@
            == "worker exited before reporting startup result"@,
    }
}

/// Whether `r` is what a run of reports comes to. All reports but the last are
/// good. The last is the good one that was still missing, or the first that is
/// not good, and then `r` is its error.
pub open spec fn heard(reports: Seq<Report>, num_workers: nat, r: Result<(), Error>) -> bool {
    &&& 0 < reports.len() <= num_workers
    &&& good_starts(reports, reports.len() - 1)
    &&& match r {
        Ok(()) => reports.len() == num_workers && is_good(reports.last()),
        Err(e) => report_error(reports.last(), e),
    }
}

/// The channels to all workers, on which nothing was said yet.
pub fn go_lines<'a>(go_txs: &'a [Sender<bool>]) -> (r: Vec<GoLine<'a>>)
    ensures
        r@.len() == go_txs@.len(),
        forall|i: int|
            0 <= i < r@.len() ==> (#[trigger] r@[i]).end() == go_txs@[i] && r@[i].sent() == Seq::<
                bool,
            >::empty(),
{
    let mut r: Vec<GoLine<'a>> = Vec::new();
    let mut i: usize = 0;
    while i < go_txs.len()
        invariant
            i <= go_txs@.len(),
            r@.len() == i,
            forall|j: int|
                0 <= j < i ==> (#[trigger] r@[j]).end() == go_txs@[j] && r@[j].sent() == Seq::<
                    bool,
                >::empty(),
        decreases go_txs@.len() - i,
    {
        r.push(GoLine::new(&go_txs[i]));
        i = i + 1;
    }
    r
}

/// How many workers have reported a good start.
#[derive(Debug, Clone, Copy, PartialEq, Eq, Structural)]
pub struct StartupTally {
    pub reported: usize,
}

impl StartupTally {
    /// Counts a report: a good start, a failed one, or the end of all reports.
    /// Once all workers reported a good start, the word is to go. A failed start
    /// is the word to abort, and so is the end of the reports before that. Till
    /// then there is no word.
    pub fn on_report(&mut self, num_workers: usize, report: Report) -> (r: Option<
        Result<(), Error>,
    >)
        requires
            old(self).reported < num_workers,
        ensures
            final(self).reported == old(self).reported + if is_good(report) {
                1int
            } else {
                0
            },
            final(self).reported <= num_workers,
            match next_word(old(self).reported as nat, num_workers as nat, report) {
                None => r is None,
                Some(go) => r matches Some(word) && word is Ok == go,
            },
            r matches Some(Err(e)) ==> report_error(report, e),
    {
        match report {
            Some(Ok(())) => {
                self.reported = self.reported + 1;
                if self.reported == num_workers {
                    Some(Ok(()))
                } else {
                    None
                }
            },
            Some(Err(e)) => Some(Err(e)),
            None => Some(
                Err(Error::Worker("worker exited before reporting startup result".to_owned())),
            ),
        }
    }
}

/// Whether every worker was given the word, once.
pub open spec fn all_told(before: Seq<GoLine>, go: bool, after: Seq<GoLine>) -> bool {
    &&& after.len() == before.len()
    &&& forall|i: int| 0 <= i < before.len() ==> before[i].told(go, #[trigger] after[i])
}

/// Gives every worker the same word.
pub fn fan_out(go_txs: &mut Vec<GoLine<'_>>, go: bool)
    ensures
        all_told(old(go_txs)@, go, final(go_txs)@),
{
    let mut i: usize = 0;
    while i < go_txs.len()
        invariant
            i <= go_txs@.len(),
            go_txs@.len() == old(go_txs)@.len(),
            forall|j: int| 0 <= j < i ==> old(go_txs)@[j].told(go, #[trigger] go_txs@[j]),
            forall|j: int| i <= j < go_txs@.len() ==> #[trigger] go_txs@[j] == old(go_txs)@[j],
        decreases go_txs@.len() - i,
    {
        go_txs[i].send(go);
        i = i + 1;
    }
}

/// Collects the workers' reports until there is a word for them, gives it to
/// every one of them, and returns what it was: to go, or an error and to abort.
/// The word is to go once every worker has reported a good start. The first
/// report of a failed start, or the end of all reports before that, is the word
/// to abort.
pub fn supervise_startup(
    ready: &mut Reports<'_>,
    go_txs: &mut Vec<GoLine<'_>>,
    num_workers: usize,
) -> (r: Result<(), Error>)
    requires
        num_workers > 0,
    ensures
        final(ready).end() == old(ready).end(),
        final(ready).came().take(old(ready).came().len() as int) == old(ready).came(),
        heard(final(ready).came().skip(old(ready).came().len() as int), num_workers as nat, r),
        all_told(old(go_txs)@, r is Ok, final(go_txs)@),
{
    let mut tally = StartupTally { reported: 0 };
    let ghost before = ready.came();
    let ghost mut reports: Seq<Report> = Seq::empty();
    loop
        invariant
            before == old(ready).came(),
            ready.end() == old(ready).end(),
            ready.came() == before + reports,
            go_txs@ == old(go_txs)@,
            tally.reported < num_workers,
            reports.len() == tally.reported,
            good_starts(reports, reports.len() as int),
        decreases num_workers - tally.reported,
    {
        let report = match ready.next() {
            Some((_, report)) => Some(report),
            None => None,
        };
        proof {
            reports = reports.push(report);
            assert(ready.came() == before + reports);
        }
        if let Some(word) = tally.on_report(num_workers, report) {
            fan_out(go_txs, word.is_ok());
            assert(ready.came().skip(before.len() as int) == reports);
            assert(ready.came().take(before.len() as int) == before);
            return word;
        }
    }
}

/// How a worker thread ended.
#[derive(Debug)]
pub enum WorkerExit {
    Done,
    Failed(Error),
    Panicked,
}

/// Whether `e` is the error that an exit stands for.
pub open spec fn exit_error(exit: WorkerExit, e: Error) -> bool {
    match exit {
        WorkerExit::Done => false,
        WorkerExit::Failed(f) => e == f,
        WorkerExit::Panicked => e matches Error::Worker(text) && text@ == "worker thread panicked"@,
    }
}

/// Adds a worker's exit to the error so far. The first error stays.
pub fn keep_first(so_far: Option<Error>, exit: WorkerExit) -> (r: Option<Error>)
    ensures
        so_far is Some ==> r == so_far,
        so_far is None ==> match r {
            Some(e) => exit_error(exit, e),
            None => exit is Done,
        },
{
    if so_far.is_some() {
        return so_far;
    }
    match exit {
        WorkerExit::Done => None,
        WorkerExit::Failed(e) => Some(e),
        WorkerExit::Panicked => Some(Error::Worker("worker thread panicked".to_owned())),
    }
}

/// Whether `i` is the first worker that did not end well.
pub open spec fn first_failure(exits: Seq<WorkerExit>, i: int) -> bool {
    &&& 0 <= i < exits.len()
    &&& !(exits[i] is Done)
    &&& forall|j: int| 0 <= j < i ==> (#[trigger] exits[j]) is Done
}

/// Whether `r` is what the workers' exits come to: the error of the first that did
/// not end well, or none.
pub open spec fn joined(exits: Seq<WorkerExit>, r: Result<(), Error>) -> bool {
    match r {
        Ok(()) => forall|j: int| 0 <= j < exits.len() ==> (#[trigger] exits[j]) is Done,
        Err(e) => exists|i: int| #[trigger] first_failure(exits, i) && exit_error(exits[i], e),
    }
}

/// What the workers' exits come to, in the order of the workers: the error of
/// the first that did not end well, or none.
pub fn join_result(exits: Vec<WorkerExit>) -> (r: Result<(), Error>)
    ensures
        joined(exits@, r),
{
    let ghost all = exits@;
    let mut rest = exits;
    let mut error: Option<Error> = None;
    let ghost mut seen: int = 0;
    while rest.len() > 0
        invariant
            0 <= seen <= all.len(),
            rest@ == all.skip(seen),
            match error {
                None => forall|j: int| 0 <= j < seen ==> (#[trigger] all[j]) is Done,
                Some(e) => exists|i: int| #[trigger] first_failure(all, i) && exit_error(all[i], e),
            },
        decreases rest@.len(),
    {
        let exit = rest.remove(0);
        assert(exit == all[seen]);
        proof {
            if error is None && !(exit is Done) {
                assert(first_failure(all, seen));
            }
            seen = seen + 1;
        }
        error = keep_first(error, exit);
    }
    match error {
        Some(e) => Err(e),
        None => Ok(()),
    }
}

/// Whether every worker is still running, given which have finished.
pub open spec fn running(finished: Seq<bool>) -> bool {
    forall|j: int| 0 <= j < finished.len() ==> !(#[trigger] finished[j])
}

/// Whether every worker is still running, given which have finished.
pub fn all_running(finished: &Vec<bool>) -> (r: bool)
    ensures
        r == running(finished@),
{
    let mut i: usize = 0;
    while i < finished.len()
        invariant
            i <= finished@.len(),
            forall|j: int| 0 <= j < i ==> !(#[trigger] finished@[j]),
        decreases finished@.len() - i,
    {
        if finished[i] {
            return false;
        }
        i = i + 1;
    }
    true
}

/// The main-side ends of the workers' signal sockets. To shut down is to take
/// them and drop them: each worker then reads the end of its socket. It can be
/// done once.
#[derive(Debug)]
pub struct SignalEnds<T> {
    pub ends: Option<Vec<T>>,
}

impl<T> SignalEnds<T> {
    /// Ends that nobody has taken.
    pub fn new(ends: Vec<T>) -> (r: SignalEnds<T>)
        ensures
            r.ends == Some(ends),
    {
        SignalEnds { ends: Some(ends) }
    }

    /// What taking the ends does: they are handed out, and none are left.
    pub open spec fn gave(self, r: Option<Vec<T>>, after: SignalEnds<T>) -> bool {
        r == self.ends && after.ends is None
    }

    /// What the exit of a worker does: nothing before the barrier, and after it
    /// what taking the ends does.
    pub open spec fn exited(
        self,
        past_barrier: bool,
        r: Option<Vec<T>>,
        after: SignalEnds<T>,
    ) -> bool {
        if past_barrier {
            self.gave(r, after)
        } else {
            r is None && after == self
        }
    }

    /// Takes all ends. `None` where they were taken before.
    pub fn take(&mut self) -> (r: Option<Vec<T>>)
        ensures
            old(self).gave(r, *final(self)),
    {
        let mut taken = None;
        core::mem::swap(&mut self.ends, &mut taken);
        taken
    }

    /// Takes all ends on behalf of a worker that exits, if it had passed the
    /// startup barrier: its siblings are not to run on without it. A worker that
    /// never got that far leaves the signal alone.
    pub fn on_worker_exit(&mut self, past_barrier: bool) -> (r: Option<Vec<T>>)
        ensures
            old(self).exited(past_barrier, r, *final(self)),
    {
        if !past_barrier {
            return None;
        }
        self.take()
    }
}

} // verus!
