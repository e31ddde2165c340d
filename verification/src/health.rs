//! Health, damage and death.

use crate::actor::Actor;
use vstd::prelude::*;

verus! {

/// The health an actor has left. Below nothing the actor is dead; at exactly
/// nothing it still lives.
#[derive(Clone, Copy, Debug, PartialEq, Eq, Structural)]
pub struct Health(pub i64);

/// The health an actor is restored to.
#[derive(Clone, Copy, Debug, PartialEq, Eq, Structural)]
pub struct MaxHealth(pub i64);

/// An amount of damage dealt to the actor in slot `damaged_id`.
#[derive(Clone, Copy, Debug, PartialEq, Eq, Structural)]
pub struct DamageEvent {
    pub damaged_id: usize,
    pub damage: u64,
}

/// The actor in slot `died_id` has died.
#[derive(Clone, Copy, Debug, PartialEq, Eq, Structural)]
pub struct DeathEvent {
    pub died_id: usize,
}

/// `health` less `damage`, held at the floor of the integer.
pub open spec fn harmed(health: int, damage: int) -> int {
    if health - damage >= i64::MIN {
        health - damage
    } else {
        i64::MIN as int
    }
}

impl Health {
    /// The health after `damage` is taken.
    pub open spec fn damaged(self, damage: u64) -> Health {
        Health(harmed(self.0 as int, damage as int) as i64)
    }

    /// Whether this health is that of a dead actor.
    pub open spec fn dead(self) -> bool {
        self.0 < 0
    }

    /// Takes `damage` off the health.
    pub fn damage(&mut self, damage: u64)
        ensures
            *final(self) == old(self).damaged(damage),
            final(self).0 == harmed(old(self).0 as int, damage as int),
            final(self).0 <= old(self).0,
    {
        let left: i128 = self.0 as i128 - damage as i128;
        if left < i64::MIN as i128 {
            self.0 = i64::MIN;
        } else {
            self.0 = left as i64;
        }
    }

    /// Tells whether the health has fallen below nothing.
    pub fn is_dead(&self) -> (dead: bool)
        ensures
            dead == self.dead(),
    {
        self.0 < 0
    }
}

impl Actor {
    /// The actor after `damage` is taken off its health.
    pub open spec fn hurt(self, damage: u64) -> Actor {
        Actor { health: self.health.damaged(damage), ..self }
    }
}

/// The slots after one damage event: the actor that it names has the damage
/// taken off its health, and an event that names an empty slot, or none,
/// changes nothing.
pub open spec fn damage_dealt(actors: Seq<Option<Actor>>, event: DamageEvent) -> Seq<Option<Actor>> {
    if event.damaged_id < actors.len() {
        match actors[event.damaged_id as int] {
            Some(a) => actors.update(event.damaged_id as int, Some(a.hurt(event.damage))),
            None => actors,
        }
    } else {
        actors
    }
}

/// The slots after the damage events, one after the other.
pub open spec fn all_damage_dealt(actors: Seq<Option<Actor>>, events: Seq<DamageEvent>) -> Seq<
    Option<Actor>,
>
    decreases events.len(),
{
    if events.len() == 0 {
        actors
    } else {
        damage_dealt(all_damage_dealt(actors, events.drop_last()), events.last())
    }
}

/// Whether one of the events names the slot `id`.
pub open spec fn named(events: Seq<DamageEvent>, id: int) -> bool {
    exists|j: int| 0 <= j < events.len() && (#[trigger] events[j]).damaged_id == id
}

/// Whether the actor in slot `id` has just died: it is there, one of the
/// events named it, and its health is below nothing.
pub open spec fn died(actors: Seq<Option<Actor>>, events: Seq<DamageEvent>, id: int) -> bool {
    &&& 0 <= id < actors.len()
    &&& actors[id] matches Some(a) && a.health.dead()
    &&& named(events, id)
}

/// The deaths among the first `n` slots, in the order of the slots.
pub open spec fn deaths_among(actors: Seq<Option<Actor>>, events: Seq<DamageEvent>, n: nat) -> Seq<
    DeathEvent,
>
    decreases n,
{
    if n == 0 {
        Seq::empty()
    } else {
        let before = deaths_among(actors, events, (n - 1) as nat);
        if died(actors, events, n - 1) {
            before.push(DeathEvent { died_id: (n - 1) as usize })
        } else {
            before
        }
    }
}

/// The deaths among all the slots.
pub open spec fn deaths(actors: Seq<Option<Actor>>, events: Seq<DamageEvent>) -> Seq<DeathEvent> {
    deaths_among(actors, events, actors.len())
}

/// Deals the damage of every event, in their order, to the actor that the
/// event names. An event that names no actor is dropped.
pub fn handle_damage(actors: &mut Vec<Option<Actor>>, events: &Vec<DamageEvent>)
    ensures
        final(actors)@ == all_damage_dealt(old(actors)@, events@),
        final(actors)@.len() == old(actors)@.len(),
{
    let n = events.len();
    let mut k: usize = 0;
    while k < n
        invariant
            n == events@.len(),
            k <= n,
            actors@ == all_damage_dealt(old(actors)@, events@.take(k as int)),
            actors@.len() == old(actors)@.len(),
        decreases n - k,
    {
        assert(events@.take(k + 1).drop_last() =~= events@.take(k as int));
        let event = events[k];
        let ghost before = actors@;
        if event.damaged_id < actors.len() {
            match &mut actors[event.damaged_id] {
                Some(actor) => {
                    actor.health.damage(event.damage);
                },
                None => {},
            }
        }
        assert(actors@ =~= damage_dealt(before, event));
        k += 1;
    }
    assert(events@.take(n as int) =~= events@);
}

/// Tells whether one of the events names the slot `id`.
pub fn is_named(events: &Vec<DamageEvent>, id: usize) -> (found: bool)
    ensures
        found == named(events@, id as int),
{
    let n = events.len();
    let mut k: usize = 0;
    while k < n
        invariant
            n == events@.len(),
            k <= n,
            forall|j: int| 0 <= j < k ==> (#[trigger] events@[j]).damaged_id != id,
        decreases n - k,
    {
        if events[k].damaged_id == id {
            return true;
        }
        k += 1;
    }
    false
}

/// Announces the death of every actor that one of the events named and whose
/// health is below nothing, once for each such actor, in the order of the
/// slots.
pub fn handle_death(actors: &Vec<Option<Actor>>, events: &Vec<DamageEvent>) -> (dead: Vec<
    DeathEvent,
>)
    ensures
        dead@ == deaths(actors@, events@),
{
    let n = actors.len();
    let mut dead: Vec<DeathEvent> = Vec::new();
    let mut k: usize = 0;
    while k < n
        invariant
            n == actors@.len(),
            k <= n,
            dead@ == deaths_among(actors@, events@, k as nat),
        decreases n - k,
    {
        match &actors[k] {
            Some(actor) => {
                if actor.health.is_dead() && is_named(events, k) {
                    dead.push(DeathEvent { died_id: k });
                }
            },
            None => {},
        }
        k += 1;
    }
    dead
}

} // verus!
