//! The power of teleporting.

use crate::units::{Position, PIXEL};
use vstd::prelude::*;

verus! {

/// How far a teleport carries at most: sixty-four pixels.
pub const TELEPORT_DISTANCE: u32 = 64 * PIXEL;

/// A teleport to be carried out: the actor in slot `caster` jumps toward
/// `toward`, and no further than `max_distance`.
#[derive(Clone, Copy, Debug, PartialEq, Eq, Structural)]
pub struct Teleport {
    pub caster: usize,
    pub toward: Position,
    pub max_distance: u32,
}

/// The power of teleporting, for the caster in slot `caster` who aims at
/// `aim`.
pub fn handle_teleport(caster: usize, aim: Position) -> (jump: Teleport)
    ensures
        jump == (Teleport { caster, toward: aim, max_distance: TELEPORT_DISTANCE }),
{
    Teleport { caster, toward: aim, max_distance: TELEPORT_DISTANCE }
}

} // verus!
