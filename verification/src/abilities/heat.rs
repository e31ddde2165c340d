//! Heat: a resource that abilities build up, that drains with time, and that
//! locks every ability of its holder once it passes a threshold.

use crate::actor::Actor;
use vstd::prelude::*;

verus! {

/// Heat above which its holder overheats: one hundred points.
pub const OVERHEAT_THRESHOLD: u64 = 100_000_000_000;

/// Heat that drains away by itself, in points per second.
pub const HEAT_REMOVAL_RATE: u64 = 20;

/// The heat of an actor. It has no ceiling but that of the integer, and
/// never falls below nothing.
#[derive(Clone, Copy, Debug, PartialEq, Eq, Structural)]
pub struct Heat(pub u64);

/// Marks an actor whose abilities are locked until its heat is all gone.
#[derive(Clone, Copy, Debug, PartialEq, Eq, Structural)]
pub struct Overheated;

/// The heat that one use of an ability costs.
#[derive(Clone, Copy, Debug, PartialEq, Eq, Structural)]
pub struct AddHeatOnUse(pub u64);

/// `heat` after draining at `rate` for `delta`, held at the floor of nothing.
pub open spec fn drained(heat: int, rate: int, delta: int) -> int {
    if heat - rate * delta > 0 {
        heat - rate * delta
    } else {
        0
    }
}

/// `heat` after a cost is added, held at the ceiling of the integer.
pub open spec fn raised(heat: int, cost: int) -> int {
    if heat + cost <= u64::MAX {
        heat + cost
    } else {
        u64::MAX as int
    }
}

/// Whether an actor is overheated after its heat is looked at: it becomes so
/// strictly above the threshold, stops being so only with no heat left, and
/// in between stays what it was.
pub open spec fn overheated_next(was: bool, heat: int) -> bool {
    if heat > OVERHEAT_THRESHOLD {
        true
    } else if heat <= 0 {
        false
    } else {
        was
    }
}

impl Heat {
    /// The heat after `delta` nanoseconds of draining at `rate` points per
    /// second.
    pub open spec fn cooled(self, rate: u64, delta: u64) -> Heat {
        Heat(drained(self.0 as int, rate as int, delta as int) as u64)
    }

    /// The heat after `delta` nanoseconds of draining by itself.
    pub open spec fn decayed(self, delta: u64) -> Heat {
        self.cooled(HEAT_REMOVAL_RATE, delta)
    }

    /// The heat after one use of an ability.
    pub open spec fn heated(self, cost: AddHeatOnUse) -> Heat {
        Heat(raised(self.0 as int, cost.0 as int) as u64)
    }

    /// Whether this much heat overheats its holder.
    pub open spec fn overheats(self) -> bool {
        self.0 > OVERHEAT_THRESHOLD
    }

    /// Whether no heat is left.
    pub open spec fn spent(self) -> bool {
        self.0 == 0
    }

    /// Drains the heat at `rate` points per second for `delta` nanoseconds.
    /// The heat stops at nothing.
    pub fn cool(&mut self, rate: u64, delta: u64)
        ensures
            *final(self) == old(self).cooled(rate, delta),
            final(self).0 == drained(old(self).0 as int, rate as int, delta as int),
            final(self).0 <= old(self).0,
    {
        assert(0 <= rate * delta <= 0xffff_ffff_ffff_ffff * 0xffff_ffff_ffff_ffff)
            by (nonlinear_arith)
            requires
                0 <= rate <= 0xffff_ffff_ffff_ffff,
                0 <= delta <= 0xffff_ffff_ffff_ffff,
        ;
        let loss: u128 = rate as u128 * delta as u128;
        if loss >= self.0 as u128 {
            self.0 = 0;
        } else {
            self.0 = self.0 - loss as u64;
        }
    }

    /// Drains the heat by itself for `delta` nanoseconds.
    pub fn decay(&mut self, delta: u64)
        ensures
            *final(self) == old(self).decayed(delta),
            final(self).0 == drained(old(self).0 as int, HEAT_REMOVAL_RATE as int, delta as int),
            final(self).0 <= old(self).0,
    {
        self.cool(HEAT_REMOVAL_RATE, delta)
    }

    /// Adds the cost of one use of an ability. The sum may pass the threshold
    /// by any amount.
    pub fn heat(&mut self, cost: AddHeatOnUse)
        ensures
            *final(self) == old(self).heated(cost),
            final(self).0 == raised(old(self).0 as int, cost.0 as int),
            final(self).0 >= old(self).0,
    {
        self.0 = self.0.saturating_add(cost.0);
    }

    /// Tells whether this much heat overheats its holder.
    pub fn is_over_threshold(&self) -> (over: bool)
        ensures
            over == self.overheats(),
    {
        self.0 > OVERHEAT_THRESHOLD
    }

    /// Tells whether no heat is left.
    pub fn is_spent(&self) -> (spent: bool)
        ensures
            spent == self.spent(),
    {
        self.0 == 0
    }
}

impl Actor {
    /// The actor after the look that may overheat it: one that holds heat
    /// strictly above the threshold carries the mark from then on.
    pub open spec fn overheat_entered(self) -> Actor {
        match self.heat {
            Some(heat) => if heat.overheats() {
                Actor { overheated: Some(Overheated), ..self }
            } else {
                self
            },
            None => self,
        }
    }

    /// The actor after it used an ability of the given cost: an actor that
    /// holds heat has the cost, if there is one, added to it.
    pub open spec fn heat_added(self, cost: Option<AddHeatOnUse>) -> Actor {
        match (self.heat, cost) {
            (Some(heat), Some(cost)) => Actor { heat: Some(heat.heated(cost)), ..self },
            _ => self,
        }
    }

    /// The actor after its heat has drained by itself for `delta`.
    pub open spec fn heat_removed(self, delta: u64) -> Actor {
        match self.heat {
            Some(heat) => Actor { heat: Some(heat.decayed(delta)), ..self },
            None => self,
        }
    }

    /// The actor after the look that may end its overheating: the mark goes
    /// only when no heat is left.
    pub open spec fn overheat_cleared(self) -> Actor {
        match self.heat {
            Some(heat) => if heat.spent() {
                Actor { overheated: None, ..self }
            } else {
                self
            },
            None => self,
        }
    }

    /// Adds the cost of an ability that the actor has just used to its heat.
    pub fn add_heat_on_ability(&mut self, cost: Option<AddHeatOnUse>)
        ensures
            *final(self) == old(self).heat_added(cost),
    {
        match cost {
            Some(cost) => {
                match &mut self.heat {
                    Some(heat) => {
                        heat.heat(cost);
                    },
                    None => {},
                }
            },
            None => {},
        }
    }

    /// Marks the actor as overheated if its heat is strictly above the
    /// threshold.
    pub fn enter_overheat(&mut self)
        ensures
            *final(self) == old(self).overheat_entered(),
            final(self).heat == old(self).heat,
            old(self).heat matches Some(h) ==> (final(self).overheated is Some <==> (
                old(self).overheated is Some || h.0 > OVERHEAT_THRESHOLD)),
    {
        match self.heat {
            Some(heat) => {
                if heat.is_over_threshold() {
                    self.overheated = Some(Overheated);
                }
            },
            None => {},
        }
    }

    /// Lets the actor's heat drain by itself for `delta` nanoseconds.
    pub fn remove_heat(&mut self, delta: u64)
        ensures
            *final(self) == old(self).heat_removed(delta),
    {
        match &mut self.heat {
            Some(heat) => {
                heat.decay(delta);
            },
            None => {},
        }
    }

    /// Takes the mark of overheating off the actor if no heat is left.
    pub fn clear_overheat(&mut self)
        ensures
            *final(self) == old(self).overheat_cleared(),
            final(self).heat == old(self).heat,
            old(self).heat matches Some(h) ==> (final(self).overheated is Some <==> (
                old(self).overheated is Some && h.0 != 0)),
    {
        match self.heat {
            Some(heat) => {
                if heat.is_spent() {
                    self.overheated = None;
                }
            },
            None => {},
        }
    }
}

/// The slots after every actor had the look that may overheat it.
pub open spec fn all_overheat_entered(actors: Seq<Option<Actor>>) -> Seq<Option<Actor>> {
    Seq::new(
        actors.len(),
        |i: int|
            match actors[i] {
                Some(a) => Some(a.overheat_entered()),
                None => None,
            },
    )
}

/// The slots after every actor's heat drained by itself for `delta`.
pub open spec fn all_heat_removed(actors: Seq<Option<Actor>>, delta: u64) -> Seq<Option<Actor>> {
    Seq::new(
        actors.len(),
        |i: int|
            match actors[i] {
                Some(a) => Some(a.heat_removed(delta)),
                None => None,
            },
    )
}

/// The slots after every actor had the look that may end its overheating.
pub open spec fn all_overheat_cleared(actors: Seq<Option<Actor>>) -> Seq<Option<Actor>> {
    Seq::new(
        actors.len(),
        |i: int|
            match actors[i] {
                Some(a) => Some(a.overheat_cleared()),
                None => None,
            },
    )
}

/// Marks as overheated every actor whose heat is strictly above the
/// threshold.
pub fn add_overheated(actors: &mut Vec<Option<Actor>>)
    ensures
        final(actors)@ == all_overheat_entered(old(actors)@),
{
    let n = actors.len();
    let mut k: usize = 0;
    while k < n
        invariant
            n == actors@.len(),
            n == old(actors)@.len(),
            k <= n,
            forall|j: int| 0 <= j < k ==> actors@[j] == all_overheat_entered(old(actors)@)[j],
            forall|j: int| k <= j < n ==> actors@[j] == old(actors)@[j],
        decreases n - k,
    {
        match &mut actors[k] {
            Some(actor) => {
                actor.enter_overheat();
            },
            None => {},
        }
        k += 1;
    }
    assert(actors@ =~= all_overheat_entered(old(actors)@));
}

/// Lets the heat of every actor drain by itself for `delta` nanoseconds.
pub fn remove_heat(actors: &mut Vec<Option<Actor>>, delta: u64)
    ensures
        final(actors)@ == all_heat_removed(old(actors)@, delta),
{
    let n = actors.len();
    let mut k: usize = 0;
    while k < n
        invariant
            n == actors@.len(),
            n == old(actors)@.len(),
            k <= n,
            forall|j: int| 0 <= j < k ==> actors@[j] == all_heat_removed(old(actors)@, delta)[j],
            forall|j: int| k <= j < n ==> actors@[j] == old(actors)@[j],
        decreases n - k,
    {
        match &mut actors[k] {
            Some(actor) => {
                actor.remove_heat(delta);
            },
            None => {},
        }
        k += 1;
    }
    assert(actors@ =~= all_heat_removed(old(actors)@, delta));
}

/// Takes the mark of overheating off every actor that has no heat left.
pub fn remove_overheated(actors: &mut Vec<Option<Actor>>)
    ensures
        final(actors)@ == all_overheat_cleared(old(actors)@),
{
    let n = actors.len();
    let mut k: usize = 0;
    while k < n
        invariant
            n == actors@.len(),
            n == old(actors)@.len(),
            k <= n,
            forall|j: int| 0 <= j < k ==> actors@[j] == all_overheat_cleared(old(actors)@)[j],
            forall|j: int| k <= j < n ==> actors@[j] == old(actors)@[j],
        decreases n - k,
    {
        match &mut actors[k] {
            Some(actor) => {
                actor.clear_overheat();
            },
            None => {},
        }
        k += 1;
    }
    assert(actors@ =~= all_overheat_cleared(old(actors)@));
}

/// Heat never falls below nothing: draining stops there and only ever
/// takes, and a cost only ever adds.
pub proof fn lemma_heat_never_negative(heat: Heat, rate: u64, delta: u64, cost: AddHeatOnUse)
    ensures
        heat.cooled(rate, delta).0 == drained(heat.0 as int, rate as int, delta as int),
        0 <= heat.cooled(rate, delta).0 <= heat.0,
        heat.decayed(delta).0 == drained(heat.0 as int, HEAT_REMOVAL_RATE as int, delta as int),
        0 <= heat.decayed(delta).0 <= heat.0,
        heat.heated(cost).0 == raised(heat.0 as int, cost.0 as int),
        heat.heated(cost).0 >= heat.0,
{
    assert(rate * delta >= 0) by (nonlinear_arith)
        requires
            rate >= 0,
            delta >= 0,
    ;
    assert(HEAT_REMOVAL_RATE * delta >= 0) by (nonlinear_arith)
        requires
            delta >= 0,
    ;
}

/// The overheat rule has a memory. An actor that holds heat becomes
/// overheated exactly when its heat is strictly above the threshold; it stops
/// being overheated exactly when its heat is back at nothing; and with heat
/// anywhere in between it stays what it was. The two looks, one after the
/// other at the same heat, come to `overheated_next`.
pub proof fn lemma_overheat_hysteresis(actor: Actor)
    requires
        actor.heat is Some,
    ensures
        actor.overheated is None ==> (actor.overheat_entered().overheated is Some
            <==> actor.heat.unwrap().0 > OVERHEAT_THRESHOLD),
        actor.overheated is Some ==> actor.overheat_entered().overheated is Some,
        actor.overheated is Some ==> (actor.overheat_cleared().overheated is None
            <==> actor.heat.unwrap().0 == 0),
        actor.overheated is None ==> actor.overheat_cleared().overheated is None,
        0 < actor.heat.unwrap().0 <= OVERHEAT_THRESHOLD ==> actor.overheat_entered().overheated
            == actor.overheated && actor.overheat_cleared().overheated == actor.overheated,
        actor.overheat_entered().overheat_cleared().overheated is Some <==> overheated_next(
            actor.overheated is Some,
            actor.heat.unwrap().0 as int,
        ),
{
}

/// What one reckoning of heat makes of an actor that holds heat: it is
/// overheated afterwards exactly if it was overheated or its heat was
/// strictly above the threshold, and the draining has left some heat.
pub proof fn lemma_overheat_after_reckoning(actor: Actor, delta: u64)
    requires
        actor.heat is Some,
    ensures
        actor.overheat_entered().heat_removed(delta).overheat_cleared().heat == Some(
            actor.heat.unwrap().decayed(delta),
        ),
        actor.overheat_entered().heat_removed(delta).overheat_cleared().overheated is Some <==> (
        actor.overheated is Some || actor.heat.unwrap().0 > OVERHEAT_THRESHOLD)
            && actor.heat.unwrap().decayed(delta).0 != 0,
{
}

} // verus!
