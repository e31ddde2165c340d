//! The power of raising a wall of ice.

use crate::countdown::Countdown;
use crate::lifetime::Lifetime;
use crate::units::{Position, PIXEL, SECOND};
use vstd::prelude::*;

verus! {

/// How far from its caster a wall stands at most: sixty-four pixels.
pub const MAX_ICEWALL_CAST_DISTANCE: u32 = 64 * PIXEL;

/// How long a wall is: sixty-four pixels.
pub const ICEWALL_LENGTH: u32 = 64 * PIXEL;

/// How thick a wall is: eight pixels.
pub const ICEWALL_THICKNESS: u32 = 8 * PIXEL;

/// How long a wall stands: two seconds.
pub const ICEWALL_LIFETIME: u64 = 2 * SECOND;

/// A wall of ice to be raised: it stands between the actor in slot `caster`
/// and `toward`, across the line between the two, no further than
/// `max_distance` from the caster.
#[derive(Clone, Copy, Debug, PartialEq, Eq, Structural)]
pub struct IceWall {
    pub caster: usize,
    pub toward: Position,
    pub max_distance: u32,
    pub length: u32,
    pub thickness: u32,
    pub lifetime: Lifetime,
}

/// The wall that the caster in slot `caster` raises when aiming at `aim`.
pub open spec fn icewall(caster: usize, aim: Position) -> IceWall {
    IceWall {
        caster,
        toward: aim,
        max_distance: MAX_ICEWALL_CAST_DISTANCE,
        length: ICEWALL_LENGTH,
        thickness: ICEWALL_THICKNESS,
        lifetime: Lifetime(Countdown { elapsed: 0, duration: ICEWALL_LIFETIME, finished: false }),
    }
}

/// The power of the wall of ice, for the caster in slot `caster` who aims at
/// `aim`.
pub fn spawn_icewall(caster: usize, aim: Position) -> (wall: IceWall)
    ensures
        wall == icewall(caster, aim),
{
    IceWall {
        caster,
        toward: aim,
        max_distance: MAX_ICEWALL_CAST_DISTANCE,
        length: ICEWALL_LENGTH,
        thickness: ICEWALL_THICKNESS,
        lifetime: Lifetime::new(ICEWALL_LIFETIME),
    }
}

} // verus!
