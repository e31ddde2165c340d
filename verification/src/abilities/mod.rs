//! Abilities: what a loadout slot does, and when it may be used.

use crate::abilities::cooldown::{AbilityCooldown, AbilityCooldownTime};
use crate::abilities::heat::AddHeatOnUse;
use vstd::prelude::*;

pub mod cool_zone;
pub mod cooldown;
pub mod fireball;
pub mod heat;
pub mod invisibility;
pub mod shotgun;
pub mod take_damage;
pub mod teleport;
pub mod wall;

verus! {

/// What an ability does to the world.
#[derive(Clone, Copy, Debug, PartialEq, Eq, Hash, Structural)]
pub enum Power {
    Teleport,
    Fireball,
    IceWall,
    Shotgun,
}

/// What an ability does to its caster.
#[derive(Clone, Copy, Debug, PartialEq, Eq, Hash, Structural)]
pub enum SideEffect {
    TakeDamage,
    CoolZone,
    InvisibleWithShadow,
}

/// One ability: its power, its side effect if it has one, how long it cools
/// down after a use, what heat a use costs if any, and the cooldown that runs
/// at present, if one does.
#[derive(Clone, Copy, Debug, PartialEq, Eq, Structural)]
pub struct Ability {
    pub power: Power,
    pub side_effect: Option<SideEffect>,
    pub cooldown_time: AbilityCooldownTime,
    pub heat: Option<AddHeatOnUse>,
    pub cooldown: Option<AbilityCooldown>,
}

/// The abilities of one actor, by slot. `owner` is the slot of the actor in
/// the world, and each entry the slot of an ability.
#[derive(Clone, Debug)]
pub struct Loadout {
    pub owner: usize,
    pub abilities: Vec<usize>,
}

/// The wish to use the ability in slot `ability` of the loadout in slot
/// `loadout`.
#[derive(Clone, Copy, Debug, PartialEq, Eq, Structural)]
pub struct UseAbilityEvent {
    pub loadout: usize,
    pub ability: usize,
}

/// A loadout as a value: its owner and the slots of its abilities in order.
pub struct LoadoutView {
    pub owner: usize,
    pub abilities: Seq<usize>,
}

impl View for Loadout {
    type V = LoadoutView;

    open spec fn view(&self) -> LoadoutView {
        LoadoutView { owner: self.owner, abilities: self.abilities@ }
    }
}

/// What became of the wish to use an ability.
#[derive(Clone, Copy, Debug, PartialEq, Eq, Structural)]
pub enum CastOutcome {
    /// The ability was used.
    Cast,
    /// The event names no loadout.
    NoLoadout,
    /// The owner of the loadout is gone.
    NoCaster,
    /// The loadout has no such slot.
    NoSuchSlot,
    /// The slot names no ability.
    NoSuchAbility,
    /// The ability cools down.
    CoolingDown,
    /// The caster is overheated.
    Overheated,
}

impl Default for Power {
    fn default() -> (p: Power)
        ensures
            p == Power::Teleport,
    {
        Power::Teleport
    }
}

impl Default for SideEffect {
    fn default() -> (e: SideEffect)
        ensures
            e == SideEffect::TakeDamage,
    {
        SideEffect::TakeDamage
    }
}

impl Ability {
    /// An ability that is ready for use.
    pub fn new(
        power: Power,
        side_effect: Option<SideEffect>,
        cooldown_time: AbilityCooldownTime,
        heat: Option<AddHeatOnUse>,
    ) -> (a: Ability)
        ensures
            a == (Ability { power, side_effect, cooldown_time, heat, cooldown: None }),
    {
        Ability { power, side_effect, cooldown_time, heat, cooldown: None }
    }
}

} // verus!
