//! Cool zones: discs that cool and slow whoever stands in them.

use crate::abilities::heat::Heat;
use crate::actor::Actor;
use crate::countdown::Countdown;
use crate::lifetime::Lifetime;
use crate::units::{Position, within, is_within, PIXEL, POINT, SECOND};
use vstd::prelude::*;

verus! {

/// Heat that a cast zone takes from those inside, in points per second.
pub const COOL_ZONE_COOLING_SPEED: u64 = 20;

/// Damping that a cast zone adds to those inside: fifteen points.
pub const COOL_ZONE_SLOWDOWN: u64 = 15 * POINT;

/// Radius of a cast zone: sixty-four pixels.
pub const COOL_ZONE_RADIUS: u32 = 64 * PIXEL;

/// How long a cast zone lives: one second.
pub const COOL_ZONE_LIFETIME: u64 = SECOND;

/// A disc that cools and slows the actors inside it.
#[derive(Clone, Copy, Debug, PartialEq, Eq, Structural)]
pub struct CoolZone {
    /// Heat taken from those inside, in points per second.
    pub cooling_speed: u64,
    /// Damping added to those inside.
    pub slowdown: u64,
    pub radius: u32,
    pub position: Position,
    pub lifetime: Lifetime,
}

/// Marks a slowed actor and records the damping that was added to it.
#[derive(Clone, Copy, Debug, PartialEq, Eq, Structural)]
pub struct Slowed(pub u64);

impl CoolZone {
    /// Whether `position` lies in the zone, border included.
    pub open spec fn covers(self, position: Position) -> bool {
        within(position, self.position, self.radius)
    }

    /// Tells whether `position` lies in the zone, border included.
    pub fn is_covering(&self, position: Position) -> (inside: bool)
        ensures
            inside == self.covers(position),
    {
        is_within(position, self.position, self.radius)
    }
}

/// Whether some zone covers `position`.
pub open spec fn covered(zones: Seq<CoolZone>, position: Position) -> bool
    decreases zones.len(),
{
    if zones.len() == 0 {
        false
    } else {
        zones.last().covers(position) || covered(zones.drop_last(), position)
    }
}

/// The slowdowns of all the zones that cover `position`, added up.
pub open spec fn slowdown_at(zones: Seq<CoolZone>, position: Position) -> int
    decreases zones.len(),
{
    if zones.len() == 0 {
        0
    } else if zones.last().covers(position) {
        slowdown_at(zones.drop_last(), position) + zones.last().slowdown
    } else {
        slowdown_at(zones.drop_last(), position)
    }
}

/// `heat` after every zone that covers `position` has cooled it for `delta`,
/// one zone after the other.
pub open spec fn cooled_by(heat: Heat, zones: Seq<CoolZone>, position: Position, delta: u64) -> Heat
    decreases zones.len(),
{
    if zones.len() == 0 {
        heat
    } else {
        let before = cooled_by(heat, zones.drop_last(), position, delta);
        if zones.last().covers(position) {
            before.cooled(zones.last().cooling_speed, delta)
        } else {
            before
        }
    }
}

/// A place is covered exactly when one of the zones covers it.
pub proof fn lemma_covered_is_some_zone(zones: Seq<CoolZone>, position: Position)
    ensures
        covered(zones, position) <==> exists|i: int|
            0 <= i < zones.len() && (#[trigger] zones[i]).covers(position),
    decreases zones.len(),
{
    if zones.len() > 0 {
        let rest = zones.drop_last();
        lemma_covered_is_some_zone(rest, position);
        if covered(zones, position) {
            if zones.last().covers(position) {
                assert(zones[zones.len() - 1].covers(position));
            } else {
                let i = choose|i: int| 0 <= i < rest.len() && (#[trigger] rest[i]).covers(position);
                assert(zones[i].covers(position));
            }
        }
        if exists|i: int| 0 <= i < zones.len() && (#[trigger] zones[i]).covers(position) {
            let i = choose|i: int| 0 <= i < zones.len() && (#[trigger] zones[i]).covers(position);
            if i < zones.len() - 1 {
                assert(rest[i].covers(position));
            }
        }
    }
}

/// Outside every zone nothing is added and nothing is cooled.
pub proof fn lemma_uncovered_is_untouched(
    heat: Heat,
    zones: Seq<CoolZone>,
    position: Position,
    delta: u64,
)
    requires
        !covered(zones, position),
    ensures
        slowdown_at(zones, position) == 0,
        cooled_by(heat, zones, position, delta) == heat,
    decreases zones.len(),
{
    if zones.len() > 0 {
        lemma_uncovered_is_untouched(heat, zones.drop_last(), position, delta);
    }
}

/// A single zone cools whoever stands in it at its own speed, and whoever
/// stands outside not at all.
pub proof fn lemma_one_zone_cools_at_its_speed(
    heat: Heat,
    zone: CoolZone,
    position: Position,
    delta: u64,
)
    ensures
        zone.covers(position) ==> cooled_by(heat, seq![zone], position, delta) == heat.cooled(
            zone.cooling_speed,
            delta,
        ),
        !zone.covers(position) ==> cooled_by(heat, seq![zone], position, delta) == heat,
{
    let zones = seq![zone];
    assert(zones.last() == zone);
    assert(zones.drop_last().len() == 0);
    assert(cooled_by(heat, zones.drop_last(), position, delta) == heat);
}

/// The slowdowns add up to nothing less than nothing.
pub proof fn lemma_slowdown_not_negative(zones: Seq<CoolZone>, position: Position)
    ensures
        slowdown_at(zones, position) >= 0,
    decreases zones.len(),
{
    if zones.len() > 0 {
        lemma_slowdown_not_negative(zones.drop_last(), position);
    }
}

/// Tells whether some zone covers `position`.
pub fn is_covered(zones: &Vec<CoolZone>, position: Position) -> (inside: bool)
    ensures
        inside == covered(zones@, position),
{
    let n = zones.len();
    let mut inside = false;
    let mut k: usize = 0;
    while k < n
        invariant
            n == zones@.len(),
            k <= n,
            inside == covered(zones@.take(k as int), position),
        decreases n - k,
    {
        assert(zones@.take(k + 1).drop_last() =~= zones@.take(k as int));
        if zones[k].is_covering(position) {
            inside = true;
        }
        k += 1;
    }
    assert(zones@.take(n as int) =~= zones@);
    inside
}

/// Adds up the slowdowns of the zones that cover `position`; the sum stops at
/// the ceiling of the integer.
pub fn total_slowdown(zones: &Vec<CoolZone>, position: Position) -> (total: u64)
    ensures
        total == if slowdown_at(zones@, position) <= u64::MAX {
            slowdown_at(zones@, position)
        } else {
            u64::MAX as int
        },
{
    let n = zones.len();
    let mut total: u64 = 0;
    let mut k: usize = 0;
    while k < n
        invariant
            n == zones@.len(),
            k <= n,
            slowdown_at(zones@.take(k as int), position) >= 0,
            total == if slowdown_at(zones@.take(k as int), position) <= u64::MAX {
                slowdown_at(zones@.take(k as int), position)
            } else {
                u64::MAX as int
            },
        decreases n - k,
    {
        assert(zones@.take(k + 1).drop_last() =~= zones@.take(k as int));
        if zones[k].is_covering(position) {
            total = total.saturating_add(zones[k].slowdown);
        }
        k += 1;
    }
    assert(zones@.take(n as int) =~= zones@);
    total
}

impl Actor {
    /// The actor after the zones cooled it for `delta`.
    pub open spec fn cooled_down(self, zones: Seq<CoolZone>, delta: u64) -> Actor {
        match self.heat {
            Some(heat) => Actor {
                heat: Some(cooled_by(heat, zones, self.position, delta)),
                ..self
            },
            None => self,
        }
    }

    /// The damping that entering the zones adds to the actor: the slowdowns
    /// of the zones that cover it, as far as the damping has room for them.
    pub open spec fn slowdown_applied(self, zones: Seq<CoolZone>) -> int {
        if self.damping + slowdown_at(zones, self.position) <= u64::MAX {
            slowdown_at(zones, self.position)
        } else {
            u64::MAX - self.damping
        }
    }

    /// The actor after the zones had their chance to slow it. One that is
    /// covered and does not carry the mark gets the slowdowns added to its
    /// damping and carries, from then on, the mark with what was added.
    pub open spec fn slowed_by(self, zones: Seq<CoolZone>) -> Actor {
        if self.slowed is None && covered(zones, self.position) {
            Actor {
                damping: (self.damping + self.slowdown_applied(zones)) as u64,
                slowed: Some(Slowed(self.slowdown_applied(zones) as u64)),
                ..self
            }
        } else {
            self
        }
    }

    /// The actor after the zones had their chance to release it. One that
    /// carries the mark and is covered by no zone has the recorded damping
    /// taken off again and loses the mark.
    pub open spec fn unslowed_by(self, zones: Seq<CoolZone>) -> Actor {
        match self.slowed {
            Some(mark) => if covered(zones, self.position) {
                self
            } else {
                Actor {
                    damping: if self.damping >= mark.0 {
                        (self.damping - mark.0) as u64
                    } else {
                        0
                    },
                    slowed: None,
                    ..self
                }
            },
            None => self,
        }
    }

    /// Lets every zone that covers the actor cool it for `delta` nanoseconds.
    pub fn cool_down(&mut self, zones: &Vec<CoolZone>, delta: u64)
        ensures
            *final(self) == old(self).cooled_down(zones@, delta),
    {
        let position = self.position;
        match &mut self.heat {
            Some(heat) => {
                let ghost start = *heat;
                let n = zones.len();
                let mut k: usize = 0;
                while k < n
                    invariant
                        n == zones@.len(),
                        k <= n,
                        *heat == cooled_by(start, zones@.take(k as int), position, delta),
                    decreases n - k,
                {
                    assert(zones@.take(k + 1).drop_last() =~= zones@.take(k as int));
                    if zones[k].is_covering(position) {
                        heat.cool(zones[k].cooling_speed, delta);
                    }
                    k += 1;
                }
                assert(zones@.take(n as int) =~= zones@);
            },
            None => {},
        }
    }

    /// Slows the actor if a zone covers it and it is not slowed yet.
    pub fn slow_movement(&mut self, zones: &Vec<CoolZone>)
        ensures
            *final(self) == old(self).slowed_by(zones@),
    {
        if self.slowed.is_none() && is_covered(zones, self.position) {
            proof {
                lemma_slowdown_not_negative(zones@, self.position);
            }
            let total = total_slowdown(zones, self.position);
            let damping = self.damping.saturating_add(total);
            let applied = damping - self.damping;
            self.damping = damping;
            self.slowed = Some(Slowed(applied));
        }
    }

    /// Releases the actor if it is slowed and no zone covers it any more.
    pub fn unslow_movement(&mut self, zones: &Vec<CoolZone>)
        ensures
            *final(self) == old(self).unslowed_by(zones@),
    {
        match self.slowed {
            Some(mark) => {
                if !is_covered(zones, self.position) {
                    self.damping = self.damping.saturating_sub(mark.0);
                    self.slowed = None;
                }
            },
            None => {},
        }
    }
}

/// The slots after the zones cooled every actor for `delta`.
pub open spec fn all_cooled_down(actors: Seq<Option<Actor>>, zones: Seq<CoolZone>, delta: u64) -> Seq<Option<Actor>> {
    Seq::new(
        actors.len(),
        |i: int|
            match actors[i] {
                Some(a) => Some(a.cooled_down(zones, delta)),
                None => None,
            },
    )
}

/// Lets the zones cool, for `delta` nanoseconds, every actor that they cover.
pub fn cool_down(actors: &mut Vec<Option<Actor>>, zones: &Vec<CoolZone>, delta: u64)
    ensures
        final(actors)@ == all_cooled_down(old(actors)@, zones@, delta),
{
    let n = actors.len();
    let mut k: usize = 0;
    while k < n
        invariant
            n == actors@.len(),
            n == old(actors)@.len(),
            k <= n,
            forall|j: int| 0 <= j < k ==> actors@[j] == all_cooled_down(old(actors)@, zones@, delta)[j],
            forall|j: int| k <= j < n ==> actors@[j] == old(actors)@[j],
        decreases n - k,
    {
        match &mut actors[k] {
            Some(actor) => {
                actor.cool_down(zones, delta);
            },
            None => {},
        }
        k += 1;
    }
    assert(actors@ =~= all_cooled_down(old(actors)@, zones@, delta));
}

/// The slots after the zones had their chance to slow every actor.
pub open spec fn all_slowed(actors: Seq<Option<Actor>>, zones: Seq<CoolZone>) -> Seq<Option<Actor>> {
    Seq::new(
        actors.len(),
        |i: int|
            match actors[i] {
                Some(a) => Some(a.slowed_by(zones)),
                None => None,
            },
    )
}

/// The first of the two passes over the slowing of actors: slows every actor
/// that a zone covers and that is not slowed yet.
pub fn slow_movement(actors: &mut Vec<Option<Actor>>, zones: &Vec<CoolZone>)
    ensures
        final(actors)@ == all_slowed(old(actors)@, zones@),
{
    let n = actors.len();
    let mut k: usize = 0;
    while k < n
        invariant
            n == actors@.len(),
            n == old(actors)@.len(),
            k <= n,
            forall|j: int| 0 <= j < k ==> actors@[j] == all_slowed(old(actors)@, zones@)[j],
            forall|j: int| k <= j < n ==> actors@[j] == old(actors)@[j],
        decreases n - k,
    {
        match &mut actors[k] {
            Some(actor) => {
                actor.slow_movement(zones);
            },
            None => {},
        }
        k += 1;
    }
    assert(actors@ =~= all_slowed(old(actors)@, zones@));
}

/// The slots after the zones had their chance to release every actor.
pub open spec fn all_unslowed(actors: Seq<Option<Actor>>, zones: Seq<CoolZone>) -> Seq<Option<Actor>> {
    Seq::new(
        actors.len(),
        |i: int|
            match actors[i] {
                Some(a) => Some(a.unslowed_by(zones)),
                None => None,
            },
    )
}

/// The second of the two passes: releases every slowed actor that no zone
/// covers any more.
pub fn unslow_movement(actors: &mut Vec<Option<Actor>>, zones: &Vec<CoolZone>)
    ensures
        final(actors)@ == all_unslowed(old(actors)@, zones@),
{
    let n = actors.len();
    let mut k: usize = 0;
    while k < n
        invariant
            n == actors@.len(),
            n == old(actors)@.len(),
            k <= n,
            forall|j: int| 0 <= j < k ==> actors@[j] == all_unslowed(old(actors)@, zones@)[j],
            forall|j: int| k <= j < n ==> actors@[j] == old(actors)@[j],
        decreases n - k,
    {
        match &mut actors[k] {
            Some(actor) => {
                actor.unslow_movement(zones);
            },
            None => {},
        }
        k += 1;
    }
    assert(actors@ =~= all_unslowed(old(actors)@, zones@));
}

/// Slowing is undone to the unit. An actor that was not slowed, is slowed by
/// some zones, does whatever it does to its place, and is then released for
/// want of a zone that covers it, has the damping it had before it was
/// slowed, and no mark.
pub proof fn lemma_slowdown_is_reversed(actor: Actor, entered: Seq<CoolZone>, place: Position, left: Seq<CoolZone>)
    requires
        actor.slowed is None,
        !covered(left, place),
    ensures
        (Actor { position: place, ..actor.slowed_by(entered) }).unslowed_by(left).damping
            == actor.damping,
        (Actor { position: place, ..actor.slowed_by(entered) }).unslowed_by(left).slowed is None,
        actor.slowed_by(entered).slowed matches Some(mark) ==> actor.slowed_by(entered).damping
            == actor.damping + mark.0,
{
    lemma_slowdown_not_negative(entered, actor.position);
}

/// While some zone covers a slowed actor, its mark and its damping stay as
/// they are: a second zone adds nothing, and nothing is taken off.
pub proof fn lemma_slowdown_is_fixed_at_entry(actor: Actor, zones: Seq<CoolZone>)
    requires
        actor.slowed is Some,
    ensures
        actor.slowed_by(zones) == actor,
        covered(zones, actor.position) ==> actor.unslowed_by(zones) == actor,
{
}

impl CoolZone {
    /// The zone that a cast leaves at `position`.
    pub open spec fn at(position: Position) -> CoolZone {
        CoolZone {
            cooling_speed: COOL_ZONE_COOLING_SPEED,
            slowdown: COOL_ZONE_SLOWDOWN,
            radius: COOL_ZONE_RADIUS,
            position,
            lifetime: Lifetime(
                Countdown { elapsed: 0, duration: COOL_ZONE_LIFETIME, finished: false },
            ),
        }
    }

    /// The zone after `delta`.
    pub open spec fn aged(self, delta: u64) -> CoolZone {
        CoolZone { lifetime: self.lifetime.aged(delta), ..self }
    }
}

/// The zones that live on after `delta`, each that much older, in their old
/// order. Those whose lifetime ends within `delta` are not among them.
pub open spec fn zones_left(zones: Seq<CoolZone>, delta: u64) -> Seq<CoolZone>
    decreases zones.len(),
{
    if zones.len() == 0 {
        Seq::empty()
    } else {
        let before = zones_left(zones.drop_last(), delta);
        if zones.last().lifetime.ends_within(delta) {
            before
        } else {
            before.push(zones.last().aged(delta))
        }
    }
}

/// The side effect of the cool zone: leaves a zone with a full lifetime at
/// `position`.
pub fn spawn_zone(position: Position, zones: &mut Vec<CoolZone>) -> (zone: CoolZone)
    ensures
        zone == CoolZone::at(position),
        final(zones)@ == old(zones)@.push(CoolZone::at(position)),
{
    let zone = CoolZone {
        cooling_speed: COOL_ZONE_COOLING_SPEED,
        slowdown: COOL_ZONE_SLOWDOWN,
        radius: COOL_ZONE_RADIUS,
        position,
        lifetime: Lifetime::new(COOL_ZONE_LIFETIME),
    };
    zones.push(zone);
    zone
}

/// Ages every zone by `delta` nanoseconds and takes away those whose
/// lifetime has ended.
pub fn age_zones(zones: &mut Vec<CoolZone>, delta: u64)
    ensures
        final(zones)@ == zones_left(old(zones)@, delta),
{
    let n = zones.len();
    let mut left: Vec<CoolZone> = Vec::new();
    let mut k: usize = 0;
    while k < n
        invariant
            n == zones@.len(),
            zones@ == old(zones)@,
            k <= n,
            left@ == zones_left(zones@.take(k as int), delta),
        decreases n - k,
    {
        assert(zones@.take(k + 1).drop_last() =~= zones@.take(k as int));
        let mut zone = zones[k];
        if !zone.lifetime.tick(delta) {
            left.push(zone);
        }
        k += 1;
    }
    assert(zones@.take(n as int) =~= zones@);
    *zones = left;
}

} // verus!
