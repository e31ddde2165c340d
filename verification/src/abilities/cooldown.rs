//! Cooldowns: the time after a use in which an ability cannot be used again.

use crate::abilities::Ability;
use crate::countdown::{lemma_percent_left_never_grows, Countdown};
use crate::units::SECOND;
use vstd::prelude::*;

verus! {

/// The cooldown that runs on an ability. An ability either carries one and
/// cools down, or carries none and is ready.
#[derive(Clone, Copy, Debug, PartialEq, Eq, Structural)]
pub struct AbilityCooldown(pub Countdown);

/// How long an ability cools down after each use, in nanoseconds.
#[derive(Clone, Copy, Debug, PartialEq, Eq, Structural)]
pub struct AbilityCooldownTime(pub u64);

impl AbilityCooldown {
    /// A cooldown of `duration` nanoseconds, none of them spent.
    pub fn new(duration: u64) -> (c: AbilityCooldown)
        ensures
            c == AbilityCooldown(Countdown { elapsed: 0, duration, finished: false }),
            c.0.wf(),
    {
        AbilityCooldown(Countdown::new(duration))
    }

    /// The elapsed part of the cooldown, in billionths.
    pub fn percent(&self) -> (p: u64)
        ensures
            p == self.0.spec_percent(),
    {
        self.0.percent()
    }

    /// The part of the cooldown that is left, in billionths.
    pub fn percent_left(&self) -> (p: u64)
        ensures
            p == self.0.spec_percent_left(),
    {
        self.0.percent_left()
    }
}

impl Default for AbilityCooldown {
    /// A cooldown of one second.
    fn default() -> (c: AbilityCooldown)
        ensures
            c == AbilityCooldown(Countdown { elapsed: 0, duration: SECOND, finished: false }),
    {
        AbilityCooldown::new(SECOND)
    }
}

impl Ability {
    /// A cooldown that an ability carries still runs: its time is not up.
    pub open spec fn wf(self) -> bool {
        self.cooldown matches Some(c) ==> c.0.wf() && !c.0.finished
    }

    /// Whether the ability cools down.
    pub open spec fn cooling(self) -> bool {
        self.cooldown is Some
    }

    /// The part of the cooldown that is left, in billionths; nothing for an
    /// ability that is ready.
    pub open spec fn cooldown_left(self) -> int {
        match self.cooldown {
            Some(c) => c.0.spec_percent_left(),
            None => 0,
        }
    }

    /// The ability after `delta` nanoseconds: a cooldown that runs moves on,
    /// and one that reaches its end is taken off.
    pub open spec fn cooled(self, delta: u64) -> Ability {
        match self.cooldown {
            Some(c) => if c.0.finishes_within(delta) {
                Ability { cooldown: None, ..self }
            } else {
                Ability { cooldown: Some(AbilityCooldown(c.0.ticked(delta))), ..self }
            },
            None => self,
        }
    }

    /// The ability after a use: it carries a fresh cooldown of its own
    /// cooldown time, unless one runs already.
    pub open spec fn armed(self) -> Ability {
        match self.cooldown {
            Some(_) => self,
            None => Ability {
                cooldown: Some(
                    AbilityCooldown(
                        Countdown { elapsed: 0, duration: self.cooldown_time.0, finished: false },
                    ),
                ),
                ..self
            },
        }
    }

    /// Tells whether the ability cools down.
    pub fn is_cooling(&self) -> (cooling: bool)
        ensures
            cooling == self.cooling(),
    {
        self.cooldown.is_some()
    }

    /// Moves the cooldown on by `delta` nanoseconds and takes it off when it
    /// has reached its end.
    pub fn cool(&mut self, delta: u64)
        ensures
            *final(self) == old(self).cooled(delta),
    {
        let mut done = false;
        match &mut self.cooldown {
            Some(cooldown) => {
                done = cooldown.0.tick(delta);
            },
            None => {},
        }
        if done {
            self.cooldown = None;
        }
    }

    /// Starts the cooldown after a use, unless one runs already.
    pub fn apply_cooldown_time(&mut self)
        ensures
            *final(self) == old(self).armed(),
            final(self).cooling(),
    {
        if self.cooldown.is_none() {
            self.cooldown = Some(AbilityCooldown::new(self.cooldown_time.0));
        }
    }
}

/// The abilities after `delta` nanoseconds of cooling down.
pub open spec fn all_cooled(abilities: Seq<Ability>, delta: u64) -> Seq<Ability> {
    Seq::new(abilities.len(), |i: int| abilities[i].cooled(delta))
}

/// Moves every cooldown on by `delta` nanoseconds and takes off those that
/// have reached their end.
pub fn cooldown_timer(abilities: &mut Vec<Ability>, delta: u64)
    ensures
        final(abilities)@ == all_cooled(old(abilities)@, delta),
{
    let n = abilities.len();
    let mut k: usize = 0;
    while k < n
        invariant
            n == abilities@.len(),
            n == old(abilities)@.len(),
            k <= n,
            forall|j: int| 0 <= j < k ==> abilities@[j] == (#[trigger] old(abilities)@[j]).cooled(delta),
            forall|j: int| k <= j < n ==> abilities@[j] == old(abilities)@[j],
        decreases n - k,
    {
        abilities[k].cool(delta);
        k += 1;
    }
    assert(abilities@ =~= all_cooled(old(abilities)@, delta));
}

/// While an ability cools down, the part of its cooldown that is left never
/// grows, and it is nothing at all when the cooldown is taken off.
pub proof fn lemma_cooldown_runs_down(ability: Ability, delta: u64)
    requires
        ability.wf(),
        ability.cooling(),
    ensures
        ability.cooled(delta).cooldown_left() <= ability.cooldown_left(),
        !ability.cooled(delta).cooling() ==> ability.cooled(delta).cooldown_left() == 0,
        ability.cooldown matches Some(c) ==> (!ability.cooled(delta).cooling()
            ==> c.0.ticked(delta).spec_percent_left() == 0),
        ability.cooled(delta).wf(),
        ability.armed().wf(),
{
    match ability.cooldown {
        Some(c) => {
            lemma_percent_left_never_grows(c.0, delta);
        },
        None => {},
    }
}

} // verus!
