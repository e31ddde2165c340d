//! Explosions, as announced to whoever applies their force and damage.

use crate::units::Position;
use vstd::prelude::*;

verus! {

/// An explosion at `position` that reaches `range` length units, pushes with
/// `force` and deals up to `damage`.
#[derive(Clone, Copy, Debug, PartialEq, Eq, Structural)]
pub struct ExplosionEvent {
    pub position: Position,
    pub range: u32,
    pub force: u64,
    pub damage: u64,
}

} // verus!
