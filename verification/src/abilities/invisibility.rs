//! Invisibility with a decoy: the caster cannot be aimed at for as long as
//! its decoy stands in for it.

use crate::actor::{Actor, Target};
use crate::countdown::Countdown;
use crate::lifetime::Lifetime;
use crate::units::{Position, SECOND};
use vstd::prelude::*;

verus! {

/// How long a decoy lives: three seconds.
pub const SHADOW_LIFETIME: u64 = 3 * SECOND;

/// A decoy: it stands where its caster stood and is aimed at in its stead.
#[derive(Clone, Copy, Debug, PartialEq, Eq, Structural)]
pub struct Shadow {
    pub position: Position,
    pub lifetime: Lifetime,
}

/// Marks an actor that cannot be aimed at. The mark holds the decoy, so that
/// neither can be there without the other.
#[derive(Clone, Copy, Debug, PartialEq, Eq, Structural)]
pub struct Invisible {
    pub shadow: Shadow,
}

impl Actor {
    /// An actor that carries the mark of invisibility is no target.
    pub open spec fn hidden_wf(self) -> bool {
        self.invisible is Some ==> self.target is None
    }

    /// The actor after it cast invisibility: it is no target any more, and a
    /// decoy with a full lifetime stands where the actor stands. An actor
    /// that is invisible already stays as it is, decoy and all.
    pub open spec fn hidden(self) -> Actor {
        match self.invisible {
            Some(_) => self,
            None => Actor {
                invisible: Some(
                    Invisible {
                        shadow: Shadow {
                            position: self.position,
                            lifetime: Lifetime(
                                Countdown {
                                    elapsed: 0,
                                    duration: SHADOW_LIFETIME,
                                    finished: false,
                                },
                            ),
                        },
                    },
                ),
                target: None,
                ..self
            },
        }
    }

    /// The actor after its decoy is gone: it is visible and a target again.
    /// An actor without a decoy stays as it is.
    pub open spec fn revealed(self) -> Actor {
        match self.invisible {
            Some(_) => Actor { invisible: None, target: Some(Target), ..self },
            None => self,
        }
    }

    /// The actor after its decoy lived on for `delta`: when the decoy's
    /// lifetime ends the actor is revealed, else the decoy is that much
    /// older.
    pub open spec fn shadow_aged(self, delta: u64) -> Actor {
        match self.invisible {
            Some(mark) => if mark.shadow.lifetime.ends_within(delta) {
                self.revealed()
            } else {
                Actor {
                    invisible: Some(
                        Invisible {
                            shadow: Shadow {
                                position: mark.shadow.position,
                                lifetime: mark.shadow.lifetime.aged(delta),
                            },
                        },
                    ),
                    ..self
                }
            },
            None => self,
        }
    }

    /// The side effect of invisibility: hides the actor behind a fresh decoy,
    /// unless it is hidden already.
    pub fn ability(&mut self)
        ensures
            *final(self) == old(self).hidden(),
    {
        if self.invisible.is_none() {
            self.invisible = Some(
                Invisible {
                    shadow: Shadow {
                        position: self.position,
                        lifetime: Lifetime::new(SHADOW_LIFETIME),
                    },
                },
            );
            self.target = None;
        }
    }

    /// The decoy has gone, by whatever cause: the actor is visible and a
    /// target again.
    pub fn on_shadow_death(&mut self)
        ensures
            *final(self) == old(self).revealed(),
    {
        if self.invisible.is_some() {
            self.invisible = None;
            self.target = Some(Target);
        }
    }

    /// Lets the decoy live on for `delta` nanoseconds, and reveals the actor
    /// when the decoy's lifetime ends.
    pub fn age_shadow(&mut self, delta: u64)
        ensures
            *final(self) == old(self).shadow_aged(delta),
    {
        let mut ended = false;
        match &mut self.invisible {
            Some(mark) => {
                ended = mark.shadow.lifetime.tick(delta);
            },
            None => {},
        }
        if ended {
            self.on_shadow_death();
        }
    }
}

/// The slots after every decoy lived on for `delta`.
pub open spec fn all_shadows_aged(actors: Seq<Option<Actor>>, delta: u64) -> Seq<Option<Actor>> {
    Seq::new(
        actors.len(),
        |i: int|
            match actors[i] {
                Some(a) => Some(a.shadow_aged(delta)),
                None => None,
            },
    )
}

/// Lets every decoy live on for `delta` nanoseconds and reveals the actors
/// whose decoys reach the end of their lifetime.
pub fn age_shadows(actors: &mut Vec<Option<Actor>>, delta: u64)
    ensures
        final(actors)@ == all_shadows_aged(old(actors)@, delta),
{
    let n = actors.len();
    let mut k: usize = 0;
    while k < n
        invariant
            n == actors@.len(),
            n == old(actors)@.len(),
            k <= n,
            forall|j: int| 0 <= j < k ==> actors@[j] == all_shadows_aged(old(actors)@, delta)[j],
            forall|j: int| k <= j < n ==> actors@[j] == old(actors)@[j],
        decreases n - k,
    {
        match &mut actors[k] {
            Some(actor) => {
                actor.age_shadow(delta);
            },
            None => {},
        }
        k += 1;
    }
    assert(actors@ =~= all_shadows_aged(old(actors)@, delta));
}

/// Decoy and invisibility come and go together. Casting leaves the caster
/// with a decoy and no target mark. From then on, in every step, the decoy
/// is gone after the step exactly when the caster is a target after it: by
/// the end of its lifetime, by its death, or not at all.
pub proof fn lemma_decoy_and_invisibility_are_linked(actor: Actor, delta: u64)
    requires
        actor.hidden_wf(),
    ensures
        actor.hidden().invisible is Some,
        actor.hidden().target is None,
        actor.hidden().hidden_wf(),
        actor.shadow_aged(delta).hidden_wf(),
        actor.revealed().hidden_wf(),
        actor.invisible is Some ==> (actor.shadow_aged(delta).invisible is None
            <==> actor.shadow_aged(delta).target is Some),
        actor.invisible matches Some(mark) ==> (actor.shadow_aged(delta).invisible is None
            <==> mark.shadow.lifetime.ends_within(delta)),
        actor.invisible is Some ==> actor.revealed().invisible is None
            && actor.revealed().target is Some,
        actor.invisible is None ==> actor.shadow_aged(delta) == actor && actor.revealed() == actor,
{
}

} // verus!
