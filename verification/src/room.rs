//! Rooms: what is announced when a room is entered and when it is cleared.

use crate::units::Position;
use vstd::prelude::*;

verus! {

/// The kinds of enemy.
#[derive(Clone, Copy, Debug, PartialEq, Eq, Structural)]
pub enum Enemy {
    Bomb,
    Cat,
}

/// An enemy of kind `enemy` is to appear at `translation`.
#[derive(Clone, Copy, Debug, PartialEq, Eq, Structural)]
pub struct SpawnEnemyEvent {
    pub enemy: Enemy,
    pub translation: Position,
}

/// A room, by the enemies that wait in it.
#[derive(Clone, Debug)]
pub struct Room {
    pub enemies: Vec<Enemy>,
}

/// A room is to be set up.
#[derive(Clone, Debug)]
pub struct SpawnRoomEvent {
    pub room: Room,
}

/// The last enemy of the room has gone.
#[derive(Clone, Copy, Debug, PartialEq, Eq, Structural)]
pub struct RoomClearedEvent;

/// Whether a room counts as just cleared: one is set up, no enemy is left in
/// it, and this was not announced before.
pub open spec fn just_cleared(rooms: usize, enemies: usize, cleared: bool) -> bool {
    rooms > 0 && enemies == 0 && !cleared
}

/// Whether the clearing counts as announced after the look: not once a new
/// room was asked for, and else if it was announced before or just now.
pub open spec fn cleared_next(rooms: usize, enemies: usize, cleared: bool, spawned: usize) -> bool {
    spawned == 0 && (cleared || just_cleared(rooms, enemies, cleared))
}

/// Looks whether the room has just been cleared. `rooms` tells how many rooms
/// are set up, `enemies` how many enemies are left, `cleared` whether the
/// clearing was announced already, and `spawned` how many new rooms were
/// asked for since the last look. The clearing of a room is announced once;
/// a new room makes the next clearing news again.
pub fn check_room_cleared(rooms: usize, enemies: usize, cleared: &mut bool, spawned: usize) -> (news:
    Option<RoomClearedEvent>)
    ensures
        news is Some <==> just_cleared(rooms, enemies, *old(cleared)),
        *final(cleared) == cleared_next(rooms, enemies, *old(cleared), spawned),
{
    let mut news = None;
    if rooms > 0 && enemies == 0 && !*cleared {
        news = Some(RoomClearedEvent);
        *cleared = true;
    }
    if spawned > 0 {
        *cleared = false;
    }
    news
}

} // verus!
