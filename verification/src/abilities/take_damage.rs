//! The side effect of self-damage.

use crate::health::DamageEvent;
use crate::units::POINT;
use vstd::prelude::*;

verus! {

/// What the side effect costs its caster: five points of health.
pub const DAMAGE: u64 = 5 * POINT;

/// The side effect of self-damage: the damage that the caster in slot
/// `caster` deals to itself.
pub fn take_damage(caster: usize) -> (event: DamageEvent)
    ensures
        event == (DamageEvent { damaged_id: caster, damage: DAMAGE }),
{
    DamageEvent { damaged_id: caster, damage: DAMAGE }
}

} // verus!
