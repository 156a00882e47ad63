//! The channel on which a worker's events wait.

use crate::broker::event::Event;
use local_sync::mpsc::unbounded::{Rx, Tx};
use vstd::prelude::*;

verus! {

/// The sending end of an unbounded channel within one thread.
#[verifier::external_type_specification]
#[verifier::external_body]
#[verifier::reject_recursive_types(T)]
pub struct ExTx<T>(Tx<T>);

/// The receiving end of an unbounded channel within one thread.
#[verifier::external_type_specification]
#[verifier::external_body]
#[verifier::reject_recursive_types(T)]
pub struct ExRx<T>(Rx<T>);

/// Whether two ends are those of one channel: what is sent on the one comes out
/// of the other.
pub uninterp spec fn one_channel(tx: Tx<Event>, rx: Rx<Event>) -> bool;

/// `local_sync::mpsc::unbounded::channel`: the two ends of one channel. What the
/// channel holds is shared by them, and nothing is said of it.
#[verifier::external_body]
pub(crate) fn open_channel() -> (r: (Tx<Event>, Rx<Event>))
    ensures
        one_channel(r.0, r.1),
{
    local_sync::mpsc::unbounded::channel::<Event>()
}

/// `Tx::clone`: another sending end of the same channel.
#[verifier::external_body]
pub(crate) fn another_end(tx: &Tx<Event>) -> (r: Tx<Event>)
    ensures
        forall|rx: Rx<Event>| #[trigger] one_channel(r, rx) == one_channel(*tx, rx),
{
    tx.clone()
}

/// A record of what event channels were asked and given, and on which sending ends.
pub struct EventLog {
    ends: Ghost<Seq<Tx<Event>>>,
    closed: Ghost<Seq<bool>>,
    tried: Ghost<Seq<(Event, bool)>>,
}

/// The events of the tries that were taken, in order.
pub open spec fn taken_of(tried: Seq<(Event, bool)>) -> Seq<Event>
    decreases tried.len(),
{
    if tried.len() == 0 {
        Seq::empty()
    } else if tried.last().1 {
        taken_of(tried.drop_last()).push(tried.last().0)
    } else {
        taken_of(tried.drop_last())
    }
}

impl EventLog {
    /// The sending ends that were asked or given something, one for each time.
    pub closed spec fn ends(&self) -> Seq<Tx<Event>> {
        self.ends@
    }

    /// What was answered, each time it was asked whether the receiving end is
    /// gone.
    pub closed spec fn closed(&self) -> Seq<bool> {
        self.closed@
    }

    /// The events that were sent, each with whether the channel took it.
    pub closed spec fn tried(&self) -> Seq<(Event, bool)> {
        self.tried@
    }

    /// The events that were taken, in order.
    pub open spec fn sent(&self) -> Seq<Event> {
        taken_of(self.tried())
    }

    /// Whether all that is recorded went to the channel of this receiving end.
    pub open spec fn leads_to(&self, rx: Rx<Event>) -> bool {
        forall|i: int| 0 <= i < self.ends().len() ==> one_channel(#[trigger] self.ends()[i], rx)
    }

    /// A record of nothing yet.
    pub fn new() -> (r: EventLog)
        ensures
            r.ends() == Seq::<Tx<Event>>::empty(),
            r.closed() == Seq::<bool>::empty(),
            r.tried() == Seq::<(Event, bool)>::empty(),
    {
        EventLog {
            ends: Ghost(Seq::empty()),
            closed: Ghost(Seq::empty()),
            tried: Ghost(Seq::empty()),
        }
    }
}

/// `Tx::is_closed`. Whether the receiving end is gone is for the channel to say.
#[verifier::external_body]
pub(crate) fn is_closed(tx: &Tx<Event>, log: &mut EventLog) -> (r: bool)
    ensures
        final(log).ends() == old(log).ends().push(*tx),
        final(log).closed() == old(log).closed().push(r),
        final(log).tried() == old(log).tried(),
{
    tx.is_closed()
}

/// `Tx::send` of the event: `true` where the channel took it, behind all that it
/// took before, and `false` where the receiving end is gone.
#[verifier::external_body]
pub(crate) fn send_on(tx: &Tx<Event>, log: &mut EventLog, event: Event) -> (r: bool)
    ensures
        final(log).ends() == old(log).ends().push(*tx),
        final(log).closed() == old(log).closed(),
        final(log).tried() == old(log).tried().push((event, r)),
{
    tx.send(event).is_ok()
}

} // verus!
