//! Bounded lifetimes of transient things.

use crate::countdown::Countdown;
use vstd::prelude::*;

verus! {

/// The time a transient thing has left to live.
#[derive(Clone, Copy, Debug, PartialEq, Eq, Structural)]
pub struct Lifetime(pub Countdown);

impl Lifetime {
    /// A lifetime of `duration` nanoseconds, none of them spent.
    pub fn new(duration: u64) -> (l: Lifetime)
        ensures
            l == Lifetime(Countdown { elapsed: 0, duration, finished: false }),
            l.0.wf(),
    {
        Lifetime(Countdown::new(duration))
    }

    /// Whether a tick of `delta` ends the lifetime.
    pub open spec fn ends_within(self, delta: u64) -> bool {
        self.0.finishes_within(delta)
    }

    /// The lifetime after a tick of `delta`.
    pub open spec fn aged(self, delta: u64) -> Lifetime {
        Lifetime(self.0.ticked(delta))
    }

    /// Spends `delta` nanoseconds and tells whether the lifetime ended with
    /// this tick.
    pub fn tick(&mut self, delta: u64) -> (ended: bool)
        ensures
            *final(self) == old(self).aged(delta),
            ended == old(self).ends_within(delta),
    {
        self.0.tick(delta)
    }
}

/// What `lifetime_system` leaves of the lifetimes: each one aged by `delta`.
pub open spec fn all_aged(lifetimes: Seq<Lifetime>, delta: u64) -> Seq<Lifetime> {
    Seq::new(lifetimes.len(), |i: int| lifetimes[i].aged(delta))
}

/// Which of the lifetimes end within `delta`.
pub open spec fn all_ended(lifetimes: Seq<Lifetime>, delta: u64) -> Seq<bool> {
    Seq::new(lifetimes.len(), |i: int| lifetimes[i].ends_within(delta))
}

/// Ages every lifetime by `delta`. The answer tells, place by place, whose
/// lifetime ended with this tick: those are to be removed by the caller.
pub fn lifetime_system(lifetimes: &mut Vec<Lifetime>, delta: u64) -> (ended: Vec<bool>)
    ensures
        final(lifetimes)@ == all_aged(old(lifetimes)@, delta),
        ended@ == all_ended(old(lifetimes)@, delta),
{
    let n = lifetimes.len();
    let mut ended: Vec<bool> = Vec::new();
    let mut k: usize = 0;
    while k < n
        invariant
            n == lifetimes@.len(),
            n == old(lifetimes)@.len(),
            k <= n,
            ended@.len() == k,
            forall|j: int| 0 <= j < k ==> lifetimes@[j] == (#[trigger] old(lifetimes)@[j]).aged(delta),
            forall|j: int| 0 <= j < k ==> ended@[j] == (#[trigger] old(lifetimes)@[j]).ends_within(delta),
            forall|j: int| k <= j < n ==> lifetimes@[j] == old(lifetimes)@[j],
        decreases n - k,
    {
        let e = lifetimes[k].tick(delta);
        ended.push(e);
        k += 1;
    }
    assert(lifetimes@ =~= all_aged(old(lifetimes)@, delta));
    assert(ended@ =~= all_ended(old(lifetimes)@, delta));
    ended
}

} // verus!
