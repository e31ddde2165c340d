//! What holds of the resolution of wishes, whatever the world and the wishes.

use crate::abilities::{CastOutcome, UseAbilityEvent};
use crate::health::DamageEvent;
use crate::units::Position;
use crate::world::WorldView;
use vstd::prelude::*;

verus! {

/// An ability that cools down is not used. A wish is granted only for an
/// ability that does not cool down, and the ability cools down from then on;
/// a wish that is dropped changes nothing and asks for nothing.
pub proof fn lemma_cooling_ability_is_not_used(w: WorldView, event: UseAbilityEvent, aim: Position)
    ensures
        w.outcome(event) == CastOutcome::Cast ==> !w.ability(event).cooling(),
        w.outcome(event) == CastOutcome::Cast ==> w.resolved(event, aim).ability(event).cooling(),
        w.outcome(event) == CastOutcome::Cast ==> w.actors[w.caster(event) as int].unwrap().overheated
            is None,
        w.outcome(event) != CastOutcome::Cast ==> w.resolved(event, aim) == w,
        w.outcome(event) != CastOutcome::Cast ==> w.resolution(event, aim).power is None
            && w.resolution(event, aim).side_effect is None && w.resolution(event, aim).damage
            is None,
        w.resolution(event, aim).outcome == w.outcome(event),
{
}

/// Resolving a wish takes no cooldown off, moves no loadout, fills and
/// empties no slot, and leaves the mark of overheating on whoever carries
/// it.
pub proof fn lemma_resolution_keeps_cooldowns(w: WorldView, event: UseAbilityEvent, aim: Position)
    ensures
        w.resolved(event, aim).loadouts == w.loadouts,
        w.resolved(event, aim).abilities.len() == w.abilities.len(),
        w.resolved(event, aim).actors.len() == w.actors.len(),
        forall|id: int|
            0 <= id < w.abilities.len() && (#[trigger] w.abilities[id]).cooling() ==> w.resolved(
                event,
                aim,
            ).abilities[id].cooling(),
        forall|i: int|
            0 <= i < w.actors.len() ==> ((#[trigger] w.actors[i]) is Some <==> w.resolved(
                event,
                aim,
            ).actors[i] is Some),
        forall|i: int|
            0 <= i < w.actors.len() && (#[trigger] w.actors[i]) is Some ==> w.resolved(
                event,
                aim,
            ).actors[i].unwrap().overheated == w.actors[i].unwrap().overheated,
{
}

/// What holds of one wish holds of any number of them.
pub proof fn lemma_batch_keeps_cooldowns(w: WorldView, events: Seq<UseAbilityEvent>, aim: Position)
    ensures
        w.resolved_all(events, aim).loadouts == w.loadouts,
        w.resolved_all(events, aim).abilities.len() == w.abilities.len(),
        w.resolved_all(events, aim).actors.len() == w.actors.len(),
        w.resolutions(events, aim).len() == events.len(),
        forall|id: int|
            0 <= id < w.abilities.len() && (#[trigger] w.abilities[id]).cooling()
                ==> w.resolved_all(events, aim).abilities[id].cooling(),
        forall|i: int|
            0 <= i < w.actors.len() && (#[trigger] w.actors[i]) is Some ==> w.resolved_all(
                events,
                aim,
            ).actors[i] is Some && w.resolved_all(events, aim).actors[i].unwrap().overheated
                == w.actors[i].unwrap().overheated,
    decreases events.len(),
{
    if events.len() > 0 {
        let before = w.resolved_all(events.drop_last(), aim);
        lemma_batch_keeps_cooldowns(w, events.drop_last(), aim);
        lemma_resolution_keeps_cooldowns(before, events.last(), aim);
        assert forall|id: int|
            0 <= id < w.abilities.len() && (#[trigger] w.abilities[id]).cooling() implies w.resolved_all(
            events,
            aim,
        ).abilities[id].cooling() by {
            assert(before.abilities[id].cooling());
        }
        assert forall|i: int|
            0 <= i < w.actors.len() && (#[trigger] w.actors[i]) is Some implies w.resolved_all(
            events,
            aim,
        ).actors[i] is Some && w.resolved_all(events, aim).actors[i].unwrap().overheated
            == w.actors[i].unwrap().overheated by {
            assert(before.actors[i] is Some);
        }
    }
}

/// Resolving the wishes up to a place and then the rest comes to the same as
/// resolving them all.
pub proof fn lemma_batch_splits(w: WorldView, events: Seq<UseAbilityEvent>, aim: Position, at: int)
    requires
        0 <= at <= events.len(),
    ensures
        w.resolved_all(events, aim) == w.resolved_all(events.take(at), aim).resolved_all(
            events.skip(at),
            aim,
        ),
    decreases events.len() - at,
{
    if at == events.len() {
        assert(events.take(at) =~= events);
        assert(events.skip(at).len() == 0);
    } else {
        let rest = events.skip(at);
        assert(rest.drop_last() =~= events.drop_last().skip(at));
        assert(events.drop_last().take(at) =~= events.take(at));
        assert(rest.last() == events.last());
        lemma_batch_splits(w, events.drop_last(), aim, at);
    }
}

/// What is told of the wish at place `i` is its resolution in the world that
/// the wishes before it left.
pub proof fn lemma_resolution_at(w: WorldView, events: Seq<UseAbilityEvent>, aim: Position, i: int)
    requires
        0 <= i < events.len(),
    ensures
        w.resolutions(events, aim).len() == events.len(),
        w.resolutions(events, aim)[i] == w.resolved_all(events.take(i), aim).resolution(
            events[i],
            aim,
        ),
    decreases events.len(),
{
    lemma_batch_keeps_cooldowns(w, events, aim);
    lemma_batch_keeps_cooldowns(w, events.drop_last(), aim);
    if i == events.len() - 1 {
        assert(events.take(i) =~= events.drop_last());
    } else {
        lemma_resolution_at(w, events.drop_last(), aim, i);
        assert(events.drop_last().take(i) =~= events.take(i));
    }
}

/// Of the wishes of one batch that name one and the same ability, at most
/// one is granted: the use starts the cooldown, and every later wish meets
/// it.
pub proof fn lemma_one_use_in_a_batch(
    w: WorldView,
    events: Seq<UseAbilityEvent>,
    aim: Position,
    i: int,
    j: int,
)
    requires
        0 <= i < j < events.len(),
        w.resolutions(events, aim)[i].outcome == CastOutcome::Cast,
        w.resolutions(events, aim)[j].outcome == CastOutcome::Cast,
    ensures
        w.ability_id(events[i]) != w.ability_id(events[j]),
{
    lemma_resolution_at(w, events, aim, i);
    lemma_resolution_at(w, events, aim, j);
    let at_i = w.resolved_all(events.take(i), aim);
    let after_i = at_i.resolved(events[i], aim);
    let at_j = w.resolved_all(events.take(j), aim);
    lemma_batch_keeps_cooldowns(w, events.take(i), aim);
    lemma_batch_keeps_cooldowns(w, events.take(j), aim);
    lemma_cooling_ability_is_not_used(at_i, events[i], aim);
    lemma_cooling_ability_is_not_used(at_j, events[j], aim);
    lemma_resolution_keeps_cooldowns(at_i, events[i], aim);
    // The world that the wish at `j` meets is the world after the wish at
    // `i`, with the wishes in between resolved.
    let upto = events.take(j);
    lemma_batch_splits(w, upto, aim, i + 1);
    assert(upto.take(i + 1).drop_last() =~= events.take(i));
    assert(upto.take(i + 1).last() == events[i]);
    assert(w.resolved_all(upto.take(i + 1), aim) == after_i);
    lemma_batch_keeps_cooldowns(after_i, upto.skip(i + 1), aim);
    if w.ability_id(events[i]) == w.ability_id(events[j]) {
        let id = w.ability_id(events[i]) as int;
        assert(at_i.ability_id(events[i]) == id);
        assert(after_i.abilities[id].cooling());
        assert(at_j.abilities[id].cooling());
        assert(at_j.ability_id(events[j]) == id);
        assert(false);
    }
}

/// A cooldown that does not reach its end within a tick is still there after
/// the tick, so the ability stays out of use.
pub proof fn lemma_cooldown_outlasts_tick(w: WorldView, id: int, delta: u64)
    requires
        0 <= id < w.abilities.len(),
        w.abilities[id].cooldown matches Some(c) && !c.0.finishes_within(delta),
    ensures
        w.advanced(delta).abilities[id].cooling(),
{
}

/// While an actor is overheated none of its abilities is used: every wish of
/// a batch that names a loadout of an actor that went into the batch
/// overheated is dropped.
pub proof fn lemma_overheated_caster_is_locked(
    w: WorldView,
    events: Seq<UseAbilityEvent>,
    aim: Position,
    j: int,
)
    requires
        0 <= j < events.len(),
        events[j].loadout < w.loadouts.len(),
        w.caster(events[j]) < w.actors.len(),
        w.actors[w.caster(events[j]) as int] matches Some(a) && a.overheated is Some,
    ensures
        w.resolutions(events, aim)[j].outcome != CastOutcome::Cast,
        w.resolutions(events, aim)[j].power is None,
{
    lemma_resolution_at(w, events, aim, j);
    lemma_batch_keeps_cooldowns(w, events.take(j), aim);
    lemma_cooling_ability_is_not_used(w.resolved_all(events.take(j), aim), events[j], aim);
}

/// After any tick of any world, the heat of every actor is nothing or more.
pub proof fn lemma_heat_is_never_negative(
    w: WorldView,
    events: Seq<UseAbilityEvent>,
    aim: Position,
    damage: Seq<DamageEvent>,
    delta: u64,
)
    ensures
        forall|i: int|
            0 <= i < w.ticked(events, aim, damage, delta).actors.len() ==> (#[trigger] w.ticked(
                events,
                aim,
                damage,
                delta,
            ).actors[i] matches Some(a) ==> (a.heat matches Some(h) ==> h.0 >= 0)),
{
}

} // verus!
