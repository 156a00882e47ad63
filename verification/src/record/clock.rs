//! The clock.

use std::time::Instant;
use vstd::prelude::*;

verus! {

/// A point in time.
#[verifier::external_type_specification]
#[verifier::external_body]
pub struct ExInstant(Instant);

/// The clock, with a record of what was read off it.
pub struct Clock {
    told: Ghost<Seq<Instant>>,
    readings: Ghost<Seq<(Instant, u128)>>,
}

impl Clock {
    /// The times that the clock told.
    pub closed spec fn told(&self) -> Seq<Instant> {
        self.told@
    }

    /// Whether `after` is the clock after it told one more time, which was `at`.
    pub open spec fn told_once(self, at: Instant, after: Clock) -> bool {
        after.told() == self.told().push(at) && after.readings() == self.readings()
    }

    /// What was read off the clock: since when, and how many nanoseconds.
    pub closed spec fn readings(&self) -> Seq<(Instant, u128)> {
        self.readings@
    }

    /// How many nanoseconds the last reading told.
    pub open spec fn elapsed(&self) -> u128 {
        self.readings().last().1
    }

    /// Whether `after` is the clock after one more reading, of the time since
    /// `since`.
    pub open spec fn read(self, since: Instant, after: Clock) -> bool {
        after.readings() == self.readings().push((since, after.elapsed())) && after.told()
            == self.told()
    }

    /// A clock that was not read yet.
    pub fn new() -> (r: Clock)
        ensures
            r.told() == Seq::<Instant>::empty(),
            r.readings() == Seq::<(Instant, u128)>::empty(),
    {
        Clock { told: Ghost(Seq::empty()), readings: Ghost(Seq::empty()) }
    }

    /// `Instant::now`: tells the time. Which time it is, is for the clock to say.
    #[verifier::external_body]
    pub(crate) fn now(&mut self) -> (r: Instant)
        ensures
            old(self).told_once(r, *final(self)),
    {
        Instant::now()
    }

    /// `Instant::elapsed`, in nanoseconds: reads the time since `since`. How much
    /// it is, is for the clock to say.
    #[verifier::external_body]
    pub(crate) fn elapsed_nanos(&mut self, since: &Instant) -> (r: u128)
        ensures
            final(self).readings() == old(self).readings().push((*since, r)),
            final(self).told() == old(self).told(),
    {
        since.elapsed().as_nanos()
    }
}

} // verus!
