//! The record of one actor: anything that has a place, can be hurt and
//! slowed, and may hold heat and cast abilities.

use crate::abilities::cool_zone::Slowed;
use crate::abilities::heat::{Heat, Overheated};
use crate::abilities::invisibility::Invisible;
use crate::health::{Health, MaxHealth};
use crate::units::Position;
use vstd::prelude::*;

verus! {

/// Marks an actor that enemies may aim at.
#[derive(Clone, Copy, Debug, PartialEq, Eq, Structural)]
pub struct Target;

/// One actor. A mark that is `None` is a mark the actor does not carry.
#[derive(Clone, Copy, Debug, PartialEq, Eq, Structural)]
pub struct Actor {
    pub position: Position,
    pub health: Health,
    pub max_health: MaxHealth,
    /// How strongly the actor's movement is damped, in points.
    pub damping: u64,
    pub heat: Option<Heat>,
    pub overheated: Option<Overheated>,
    pub slowed: Option<Slowed>,
    pub invisible: Option<Invisible>,
    pub target: Option<Target>,
}

impl Actor {
    /// An actor at `position` in full health, with the given damping and no
    /// marks but, if `target` is set, that of a target.
    pub fn new(position: Position, max_health: MaxHealth, damping: u64, target: bool) -> (a: Actor)
        ensures
            a == (Actor {
                position,
                health: Health(max_health.0),
                max_health,
                damping,
                heat: None,
                overheated: None,
                slowed: None,
                invisible: None,
                target: if target { Some(Target) } else { None },
            }),
    {
        Actor {
            position,
            health: Health(max_health.0),
            max_health,
            damping,
            heat: None,
            overheated: None,
            slowed: None,
            invisible: None,
            target: if target { Some(Target) } else { None },
        }
    }

    /// The actor restored to full health.
    pub open spec fn healed(self) -> Actor {
        Actor { health: Health(self.max_health.0), ..self }
    }

    /// Restores the actor to full health.
    pub fn heal(&mut self)
        ensures
            *final(self) == old(self).healed(),
    {
        self.health = Health(self.max_health.0);
    }
}

} // verus!
