//! The channels between the workers and whoever starts them.

use crate::error::Error;
use std::sync::mpsc::{Receiver, Sender};
use vstd::prelude::*;

verus! {

/// The receiving end of a channel between threads.
#[verifier::external_type_specification]
#[verifier::external_body]
#[verifier::reject_recursive_types(T)]
pub struct ExReceiver<T>(Receiver<T>);

/// The sending end of a channel between threads.
#[verifier::external_type_specification]
#[verifier::external_body]
#[verifier::reject_recursive_types(T)]
pub struct ExSender<T>(Sender<T>);

/// What a worker reports: a good start or a failed one. `None` is the end of all
/// reports.
pub type Report = Option<Result<(), Error>>;

/// The end of the channel on which the workers report, with a record of what
/// came out of it.
pub struct Reports<'a> {
    rx: &'a Receiver<(usize, Result<(), Error>)>,
    came: Ghost<Seq<Report>>,
}

/// What came out of the channel, without the number of the worker.
pub open spec fn report_of(item: Option<(usize, Result<(), Error>)>) -> Report {
    match item {
        Some((_, report)) => Some(report),
        None => None,
    }
}

impl<'a> Reports<'a> {
    /// The end of the channel.
    pub closed spec fn end(&self) -> Receiver<(usize, Result<(), Error>)> {
        *self.rx
    }

    /// What came out of it so far.
    pub closed spec fn came(&self) -> Seq<Report> {
        self.came@
    }

    /// Listens to the channel.
    pub fn new(rx: &'a Receiver<(usize, Result<(), Error>)>) -> (r: Reports<'a>)
        ensures
            r.end() == *rx,
            r.came() == Seq::<Report>::empty(),
    {
        Reports { rx, came: Ghost(Seq::empty()) }
    }

    /// `Receiver::recv`: the next report, or `None` once every worker's end of
    /// the channel is gone. What the workers report is for them to say.
    #[verifier::external_body]
    pub(crate) fn next(&mut self) -> (r: Option<(usize, Result<(), Error>)>)
        ensures
            final(self).end() == old(self).end(),
            final(self).came() == old(self).came().push(report_of(r)),
    {
        self.rx.recv().ok()
    }
}

/// The end of the channel to one worker, with a record of the words it was given
/// for it.
pub struct GoLine<'a> {
    tx: &'a Sender<bool>,
    sent: Ghost<Seq<bool>>,
}

impl<'a> GoLine<'a> {
    /// The end of the channel.
    pub closed spec fn end(&self) -> Sender<bool> {
        *self.tx
    }

    /// The words it was given so far.
    pub closed spec fn sent(&self) -> Seq<bool> {
        self.sent@
    }

    /// Whether `after` is this end after it was given one more word.
    pub open spec fn told(self, go: bool, after: GoLine<'a>) -> bool {
        after.end() == self.end() && after.sent() == self.sent().push(go)
    }

    /// A channel on which nothing was said yet.
    pub fn new(tx: &'a Sender<bool>) -> (r: GoLine<'a>)
        ensures
            r.end() == *tx,
            r.sent() == Seq::<bool>::empty(),
    {
        GoLine { tx, sent: Ghost(Seq::empty()) }
    }

    /// `Sender::send` of the word. A worker that is gone gets nothing, and that
    /// is no error.
    #[verifier::external_body]
    pub(crate) fn send(&mut self, go: bool)
        ensures
            old(self).told(go, *final(self)),
    {
        let _ = self.tx.send(go);
    }
}

} // verus!
