//! The world of the simulation and the resolution of the wishes to use an
//! ability.
//!
//! Wishes are resolved one after the other, in the order in which they came.
//! Each is judged by the world as the wishes before it left it: a cooldown
//! starts with the use that causes it, so of several wishes for one ability
//! only the first can succeed. Whether a caster is overheated is looked at
//! only when heat is reckoned, after all wishes are resolved.

use crate::abilities::cool_zone::{
    age_zones, all_cooled_down, all_slowed, all_unslowed, cool_down, slow_movement, spawn_zone,
    unslow_movement, zones_left, CoolZone,
};
use crate::abilities::cooldown::{all_cooled, cooldown_timer};
use crate::abilities::fireball::{
    explosions, fireballs_left, handle_fireball_explosion, spawn_fireball, Fireball,
};
use crate::abilities::heat::{
    add_overheated, all_heat_removed, all_overheat_cleared, all_overheat_entered, remove_heat,
    remove_overheated,
};
use crate::abilities::invisibility::{age_shadows, all_shadows_aged};
use crate::explosion::ExplosionEvent;
use crate::abilities::shotgun::{shoot, volley, Volley};
use crate::abilities::take_damage::{take_damage, DAMAGE};
use crate::abilities::teleport::{handle_teleport, Teleport, TELEPORT_DISTANCE};
use crate::abilities::wall::{icewall, spawn_icewall, IceWall};
use crate::abilities::{
    Ability, CastOutcome, Loadout, LoadoutView, Power, SideEffect, UseAbilityEvent,
};
use crate::actor::Actor;
use crate::health::{
    all_damage_dealt, deaths, handle_damage, handle_death, DamageEvent, DeathEvent,
};
use crate::units::Position;
use vstd::prelude::*;

verus! {

/// Everything the simulation keeps: actors and loadouts and abilities, each
/// known by its slot, and the zones and fireballs of the moment.
pub struct World {
    /// The actors. A slot whose actor is gone stays empty.
    pub actors: Vec<Option<Actor>>,
    pub abilities: Vec<Ability>,
    pub loadouts: Vec<Loadout>,
    pub zones: Vec<CoolZone>,
    pub fireballs: Vec<Fireball>,
}

/// The world as a value.
pub struct WorldView {
    pub actors: Seq<Option<Actor>>,
    pub abilities: Seq<Ability>,
    pub loadouts: Seq<LoadoutView>,
    pub zones: Seq<CoolZone>,
    pub fireballs: Seq<Fireball>,
}

/// What the power of a used ability asks for.
#[derive(Clone, Copy, Debug, PartialEq, Eq, Structural)]
pub enum PowerEffect {
    /// The caster is to be moved.
    Teleport(Teleport),
    /// A fireball was laid; the world keeps it.
    Fireball(Fireball),
    /// A wall is to be raised.
    IceWall(IceWall),
    /// Three bullets are to be fired.
    Shotgun(Volley),
}

/// What became of one wish.
#[derive(Clone, Copy, Debug, PartialEq, Eq, Structural)]
pub struct Resolution {
    pub outcome: CastOutcome,
    /// What the power asks for, if the ability was used.
    pub power: Option<PowerEffect>,
    /// The side effect that ran, if one did.
    pub side_effect: Option<SideEffect>,
    /// The damage that the caster dealt to itself, if it did.
    pub damage: Option<DamageEvent>,
}

impl View for World {
    type V = WorldView;

    open spec fn view(&self) -> WorldView {
        WorldView {
            actors: self.actors@,
            abilities: self.abilities@,
            loadouts: Seq::new(self.loadouts@.len(), |i: int| self.loadouts@[i]@),
            zones: self.zones@,
            fireballs: self.fireballs@,
        }
    }
}

/// What a power asks for, of the caster in slot `caster` who aims at `aim`.
pub open spec fn power_effect(power: Power, caster: usize, aim: Position) -> PowerEffect {
    match power {
        Power::Teleport => PowerEffect::Teleport(
            Teleport { caster, toward: aim, max_distance: TELEPORT_DISTANCE },
        ),
        Power::Fireball => PowerEffect::Fireball(Fireball::at(aim)),
        Power::IceWall => PowerEffect::IceWall(icewall(caster, aim)),
        Power::Shotgun => PowerEffect::Shotgun(volley(caster, aim)),
    }
}

impl Resolution {
    /// The resolution of a wish that was dropped for the given cause.
    pub open spec fn dropped(outcome: CastOutcome) -> Resolution {
        Resolution { outcome, power: None, side_effect: None, damage: None }
    }
}

impl WorldView {
    /// What becomes of a wish in this world. The wish is dropped if it names
    /// no loadout, if the owner of the loadout is gone, if the loadout has
    /// no such slot or the slot no ability, if the ability cools down, or if
    /// the caster is overheated, and of these causes the first that holds is
    /// given. Else the ability is used.
    pub open spec fn outcome(self, event: UseAbilityEvent) -> CastOutcome {
        if event.loadout >= self.loadouts.len() {
            CastOutcome::NoLoadout
        } else {
            let loadout = self.loadouts[event.loadout as int];
            if loadout.owner >= self.actors.len() || self.actors[loadout.owner as int] is None {
                CastOutcome::NoCaster
            } else if event.ability >= loadout.abilities.len() {
                CastOutcome::NoSuchSlot
            } else if loadout.abilities[event.ability as int] >= self.abilities.len() {
                CastOutcome::NoSuchAbility
            } else if self.abilities[loadout.abilities[event.ability as int] as int].cooling() {
                CastOutcome::CoolingDown
            } else if self.actors[loadout.owner as int].unwrap().overheated is Some {
                CastOutcome::Overheated
            } else {
                CastOutcome::Cast
            }
        }
    }

    /// The slot of the actor that owns the loadout of the wish.
    pub open spec fn caster(self, event: UseAbilityEvent) -> usize {
        self.loadouts[event.loadout as int].owner
    }

    /// The slot of the ability that the wish names.
    pub open spec fn ability_id(self, event: UseAbilityEvent) -> usize {
        self.loadouts[event.loadout as int].abilities[event.ability as int]
    }

    /// The ability that the wish names.
    pub open spec fn ability(self, event: UseAbilityEvent) -> Ability {
        self.abilities[self.ability_id(event) as int]
    }

    /// What is told of a wish: how it ended and, where the ability was used,
    /// what its power asks for, which side effect ran, and the damage that
    /// the caster dealt to itself.
    pub open spec fn resolution(self, event: UseAbilityEvent, aim: Position) -> Resolution {
        if self.outcome(event) == CastOutcome::Cast {
            Resolution {
                outcome: CastOutcome::Cast,
                power: Some(power_effect(self.ability(event).power, self.caster(event), aim)),
                side_effect: self.ability(event).side_effect,
                damage: if self.ability(event).side_effect == Some(SideEffect::TakeDamage) {
                    Some(DamageEvent { damaged_id: self.caster(event), damage: DAMAGE })
                } else {
                    None
                },
            }
        } else {
            Resolution::dropped(self.outcome(event))
        }
    }

    /// The caster after it used the ability: the cost is added to its heat,
    /// and the side effect of invisibility hides it.
    pub open spec fn caster_after(self, event: UseAbilityEvent) -> Actor {
        let actor = self.actors[self.caster(event) as int].unwrap().heat_added(
            self.ability(event).heat,
        );
        if self.ability(event).side_effect == Some(SideEffect::InvisibleWithShadow) {
            actor.hidden()
        } else {
            actor
        }
    }

    /// The world after a wish. A dropped wish leaves it as it was. A used
    /// ability starts to cool down; its caster is changed as `caster_after`
    /// says; the side effect of the cool zone leaves a zone where the caster
    /// stands; and the power of the fireball lays a fireball at `aim`.
    pub open spec fn resolved(self, event: UseAbilityEvent, aim: Position) -> WorldView {
        if self.outcome(event) == CastOutcome::Cast {
            WorldView {
                actors: self.actors.update(
                    self.caster(event) as int,
                    Some(self.caster_after(event)),
                ),
                abilities: self.abilities.update(
                    self.ability_id(event) as int,
                    self.ability(event).armed(),
                ),
                loadouts: self.loadouts,
                zones: if self.ability(event).side_effect == Some(SideEffect::CoolZone) {
                    self.zones.push(
                        CoolZone::at(self.actors[self.caster(event) as int].unwrap().position),
                    )
                } else {
                    self.zones
                },
                fireballs: if self.ability(event).power == Power::Fireball {
                    self.fireballs.push(Fireball::at(aim))
                } else {
                    self.fireballs
                },
            }
        } else {
            self
        }
    }

    /// The world after the wishes, one after the other.
    pub open spec fn resolved_all(self, events: Seq<UseAbilityEvent>, aim: Position) -> WorldView
        decreases events.len(),
    {
        if events.len() == 0 {
            self
        } else {
            self.resolved_all(events.drop_last(), aim).resolved(events.last(), aim)
        }
    }

    /// What is told of the wishes, in their order.
    pub open spec fn resolutions(self, events: Seq<UseAbilityEvent>, aim: Position) -> Seq<
        Resolution,
    >
        decreases events.len(),
    {
        if events.len() == 0 {
            Seq::empty()
        } else {
            self.resolutions(events.drop_last(), aim).push(
                self.resolved_all(events.drop_last(), aim).resolution(events.last(), aim),
            )
        }
    }
}

impl World {
    /// A world with nothing in it.
    pub fn new() -> (w: World)
        ensures
            w@.actors.len() == 0,
            w@.abilities.len() == 0,
            w@.loadouts.len() == 0,
            w@.zones.len() == 0,
            w@.fireballs.len() == 0,
    {
        World {
            actors: Vec::new(),
            abilities: Vec::new(),
            loadouts: Vec::new(),
            zones: Vec::new(),
            fireballs: Vec::new(),
        }
    }

    /// Judges a wish without acting on it.
    pub fn outcome(&self, event: UseAbilityEvent) -> (outcome: CastOutcome)
        ensures
            outcome == self@.outcome(event),
    {
        if event.loadout >= self.loadouts.len() {
            return CastOutcome::NoLoadout;
        }
        let loadout = &self.loadouts[event.loadout];
        assert(self@.loadouts[event.loadout as int] == loadout@);
        if loadout.owner >= self.actors.len() {
            return CastOutcome::NoCaster;
        }
        match &self.actors[loadout.owner] {
            None => CastOutcome::NoCaster,
            Some(actor) => {
                if event.ability >= loadout.abilities.len() {
                    CastOutcome::NoSuchSlot
                } else if loadout.abilities[event.ability] >= self.abilities.len() {
                    CastOutcome::NoSuchAbility
                } else if self.abilities[loadout.abilities[event.ability]].is_cooling() {
                    CastOutcome::CoolingDown
                } else if actor.overheated.is_some() {
                    CastOutcome::Overheated
                } else {
                    CastOutcome::Cast
                }
            },
        }
    }

    /// Resolves one wish: judges it and, if the ability may be used, runs the
    /// handler of its power and the handler of its side effect, starts its
    /// cooldown and adds its cost to the heat of the caster.
    pub fn resolve_event(&mut self, event: UseAbilityEvent, aim: Position) -> (told: Resolution)
        ensures
            final(self)@ == old(self)@.resolved(event, aim),
            told == old(self)@.resolution(event, aim),
    {
        let outcome = self.outcome(event);
        match outcome {
            CastOutcome::Cast => {},
            _ => {
                return Resolution { outcome, power: None, side_effect: None, damage: None };
            },
        }
        assert(self@.loadouts[event.loadout as int] == self.loadouts@[event.loadout as int]@);
        let caster = self.loadouts[event.loadout].owner;
        let id = self.loadouts[event.loadout].abilities[event.ability];
        let ability = self.abilities[id];
        let mut position = aim;
        match &mut self.actors[caster] {
            Some(actor) => {
                position = actor.position;
                actor.add_heat_on_ability(ability.heat);
                match ability.side_effect {
                    Some(SideEffect::InvisibleWithShadow) => {
                        actor.ability();
                    },
                    _ => {},
                }
            },
            None => {},
        }
        self.abilities[id].apply_cooldown_time();
        let mut damage = None;
        match ability.side_effect {
            Some(SideEffect::TakeDamage) => {
                damage = Some(take_damage(caster));
            },
            Some(SideEffect::CoolZone) => {
                spawn_zone(position, &mut self.zones);
            },
            _ => {},
        }
        let power = match ability.power {
            Power::Teleport => PowerEffect::Teleport(handle_teleport(caster, aim)),
            Power::Fireball => PowerEffect::Fireball(spawn_fireball(aim, &mut self.fireballs)),
            Power::IceWall => PowerEffect::IceWall(spawn_icewall(caster, aim)),
            Power::Shotgun => PowerEffect::Shotgun(shoot(caster, aim)),
        };
        proof {
            let before = old(self)@;
            let after = before.resolved(event, aim);
            assert(self@.actors =~= after.actors);
            assert(self@.abilities =~= after.abilities);
            assert(self@.loadouts =~= after.loadouts);
            assert(self@.zones =~= after.zones);
            assert(self@.fireballs =~= after.fireballs);
        }
        Resolution {
            outcome: CastOutcome::Cast,
            power: Some(power),
            side_effect: ability.side_effect,
            damage,
        }
    }

    /// Resolves the wishes in the order in which they came, and tells what
    /// became of each.
    pub fn resolve(&mut self, events: &Vec<UseAbilityEvent>, aim: Position) -> (told: Vec<
        Resolution,
    >)
        ensures
            final(self)@ == old(self)@.resolved_all(events@, aim),
            told@ == old(self)@.resolutions(events@, aim),
    {
        let n = events.len();
        let mut told: Vec<Resolution> = Vec::new();
        let mut k: usize = 0;
        while k < n
            invariant
                n == events@.len(),
                k <= n,
                self@ == old(self)@.resolved_all(events@.take(k as int), aim),
                told@ == old(self)@.resolutions(events@.take(k as int), aim),
            decreases n - k,
        {
            assert(events@.take(k + 1).drop_last() =~= events@.take(k as int));
            let one = self.resolve_event(events[k], aim);
            told.push(one);
            k += 1;
        }
        assert(events@.take(n as int) =~= events@);
        told
    }

    /// Moves the world on by `delta` nanoseconds, in this order: the
    /// cooldowns run; the zones cool, actors overheat, heat drains, and
    /// actors that have no heat left stop being overheated; zones, fireballs
    /// and decoys age, and those at their end go; then the zones that are
    /// left slow the actors they cover and release those they cover no more.
    /// The answer holds the explosions of the fireballs that went off.
    pub fn advance(&mut self, delta: u64) -> (blasts: Vec<ExplosionEvent>)
        ensures
            final(self)@ == old(self)@.advanced(delta),
            blasts@ == explosions(old(self)@.fireballs, delta),
    {
        cooldown_timer(&mut self.abilities, delta);
        cool_down(&mut self.actors, &self.zones, delta);
        add_overheated(&mut self.actors);
        remove_heat(&mut self.actors, delta);
        remove_overheated(&mut self.actors);
        age_zones(&mut self.zones, delta);
        let blasts = handle_fireball_explosion(&mut self.fireballs, delta);
        age_shadows(&mut self.actors, delta);
        slow_movement(&mut self.actors, &self.zones);
        unslow_movement(&mut self.actors, &self.zones);
        assert(self@.loadouts =~= old(self)@.loadouts);
        blasts
    }

    /// Deals the damage of the events and announces the deaths that follow
    /// from it.
    pub fn damage(&mut self, events: &Vec<DamageEvent>) -> (dead: Vec<DeathEvent>)
        ensures
            final(self)@ == old(self)@.damaged(events@),
            dead@ == deaths(old(self)@.damaged(events@).actors, events@),
    {
        handle_damage(&mut self.actors, events);
        let dead = handle_death(&self.actors, events);
        assert(self@.loadouts =~= old(self)@.loadouts);
        dead
    }
}

/// The damage that casters dealt to themselves, in the order of the wishes.
pub open spec fn self_damage(told: Seq<Resolution>) -> Seq<DamageEvent>
    decreases told.len(),
{
    if told.len() == 0 {
        Seq::empty()
    } else {
        match told.last().damage {
            Some(event) => self_damage(told.drop_last()).push(event),
            None => self_damage(told.drop_last()),
        }
    }
}

/// Gathers the damage that casters dealt to themselves.
pub fn gather_self_damage(told: &Vec<Resolution>) -> (events: Vec<DamageEvent>)
    ensures
        events@ == self_damage(told@),
{
    let n = told.len();
    let mut events: Vec<DamageEvent> = Vec::new();
    let mut k: usize = 0;
    while k < n
        invariant
            n == told@.len(),
            k <= n,
            events@ == self_damage(told@.take(k as int)),
        decreases n - k,
    {
        assert(told@.take(k + 1).drop_last() =~= told@.take(k as int));
        match told[k].damage {
            Some(event) => {
                events.push(event);
            },
            None => {},
        }
        k += 1;
    }
    assert(told@.take(n as int) =~= told@);
    events
}

impl WorldView {
    /// The world `delta` nanoseconds on.
    pub open spec fn advanced(self, delta: u64) -> WorldView {
        let heated = all_overheat_cleared(
            all_heat_removed(
                all_overheat_entered(all_cooled_down(self.actors, self.zones, delta)),
                delta,
            ),
        );
        let zones = zones_left(self.zones, delta);
        WorldView {
            actors: all_unslowed(all_slowed(all_shadows_aged(heated, delta), zones), zones),
            abilities: all_cooled(self.abilities, delta),
            loadouts: self.loadouts,
            zones,
            fireballs: fireballs_left(self.fireballs, delta),
        }
    }

    /// The world after the damage of the events is dealt.
    pub open spec fn damaged(self, events: Seq<DamageEvent>) -> WorldView {
        WorldView { actors: all_damage_dealt(self.actors, events), ..self }
    }
}

/// What one tick of the world brings forth.
pub struct TickOutput {
    /// What became of each wish, in the order of the wishes.
    pub told: Vec<Resolution>,
    /// The fireballs that went off.
    pub explosions: Vec<ExplosionEvent>,
    /// The damage that was dealt: first what casters dealt to themselves,
    /// then what came from outside.
    pub damage: Vec<DamageEvent>,
    /// The actors that died of it.
    pub deaths: Vec<DeathEvent>,
}

impl WorldView {
    /// The damage that one tick deals: what the casters deal to themselves,
    /// and after it what comes from outside.
    pub open spec fn tick_damage(
        self,
        events: Seq<UseAbilityEvent>,
        aim: Position,
        damage: Seq<DamageEvent>,
    ) -> Seq<DamageEvent> {
        self_damage(self.resolutions(events, aim)) + damage
    }

    /// The world after one tick: the wishes are resolved, time moves on by
    /// `delta`, and the damage is dealt.
    pub open spec fn ticked(
        self,
        events: Seq<UseAbilityEvent>,
        aim: Position,
        damage: Seq<DamageEvent>,
        delta: u64,
    ) -> WorldView {
        self.resolved_all(events, aim).advanced(delta).damaged(
            self.tick_damage(events, aim, damage),
        )
    }
}

impl World {
    /// One tick of the world, in fixed order: the wishes to use an ability
    /// are resolved as they came; time moves on by `delta` nanoseconds;
    /// the damage that casters dealt to themselves and the damage from
    /// outside is dealt; and the deaths are announced.
    pub fn tick(
        &mut self,
        events: &Vec<UseAbilityEvent>,
        aim: Position,
        damage: &Vec<DamageEvent>,
        delta: u64,
    ) -> (out: TickOutput)
        ensures
            final(self)@ == old(self)@.ticked(events@, aim, damage@, delta),
            out.told@ == old(self)@.resolutions(events@, aim),
            out.explosions@ == explosions(old(self)@.resolved_all(events@, aim).fireballs, delta),
            out.damage@ == old(self)@.tick_damage(events@, aim, damage@),
            out.deaths@ == deaths(final(self)@.actors, out.damage@),
    {
        let told = self.resolve(events, aim);
        let explosions = self.advance(delta);
        let mut dealt = gather_self_damage(&told);
        let n = damage.len();
        let mut k: usize = 0;
        while k < n
            invariant
                n == damage@.len(),
                k <= n,
                dealt@ == self_damage(told@) + damage@.take(k as int),
            decreases n - k,
        {
            dealt.push(damage[k]);
            assert(damage@.take(k + 1) =~= damage@.take(k as int).push(damage@[k as int]));
            k += 1;
        }
        assert(damage@.take(n as int) =~= damage@);
        let deaths = self.damage(&dealt);
        TickOutput { told, explosions, damage: dealt, deaths }
    }

    /// Puts an actor into the world and tells its slot.
    pub fn spawn_actor(&mut self, actor: Actor) -> (id: usize)
        ensures
            id == old(self)@.actors.len(),
            final(self)@ == (WorldView {
                actors: old(self)@.actors.push(Some(actor)),
                ..old(self)@
            }),
    {
        let id = self.actors.len();
        self.actors.push(Some(actor));
        assert(self@.loadouts =~= old(self)@.loadouts);
        id
    }

    /// Takes the actor in slot `id` out of the world. The slot stays, empty,
    /// so that no other actor is ever taken for this one. Tells whether
    /// there was an actor to take.
    pub fn despawn_actor(&mut self, id: usize) -> (gone: bool)
        ensures
            gone == (id < old(self)@.actors.len() && old(self)@.actors[id as int] is Some),
            gone ==> final(self)@ == (WorldView {
                actors: old(self)@.actors.update(id as int, None),
                ..old(self)@
            }),
            !gone ==> final(self)@ == old(self)@,
    {
        if id >= self.actors.len() {
            return false;
        }
        let gone = self.actors[id].is_some();
        self.actors[id] = None;
        assert(self@.loadouts =~= old(self)@.loadouts);
        assert(!gone ==> self@.actors =~= old(self)@.actors);
        gone
    }

    /// Puts an ability into the world and tells its slot.
    pub fn add_ability(&mut self, ability: Ability) -> (id: usize)
        ensures
            id == old(self)@.abilities.len(),
            final(self)@ == (WorldView {
                abilities: old(self)@.abilities.push(ability),
                ..old(self)@
            }),
    {
        let id = self.abilities.len();
        self.abilities.push(ability);
        assert(self@.loadouts =~= old(self)@.loadouts);
        id
    }

    /// Puts a loadout into the world and tells its slot.
    pub fn add_loadout(&mut self, loadout: Loadout) -> (id: usize)
        ensures
            id == old(self)@.loadouts.len(),
            final(self)@ == (WorldView {
                loadouts: old(self)@.loadouts.push(loadout@),
                ..old(self)@
            }),
    {
        let id = self.loadouts.len();
        self.loadouts.push(loadout);
        assert(self@.loadouts =~= old(self)@.loadouts.push(loadout@));
        id
    }
}

} // verus!
