use ability_core::room::{
    check_room_cleared, Enemy, Room, RoomClearedEvent, SpawnEnemyEvent, SpawnRoomEvent,
};
use ability_core::units::Position;

#[test]
fn clearing_is_announced_once() {
    let mut cleared: bool = false;
    assert_eq!(check_room_cleared(1, 2, &mut cleared, 0), None);
    assert!(!cleared);
    assert_eq!(check_room_cleared(1, 0, &mut cleared, 0), Some(RoomClearedEvent));
    assert!(cleared);
    assert_eq!(check_room_cleared(1, 0, &mut cleared, 0), None);
    assert!(cleared);
}

#[test]
fn new_room_makes_the_next_clearing_news_again() {
    let mut cleared: bool = true;
    assert_eq!(check_room_cleared(1, 0, &mut cleared, 1), None);
    assert!(!cleared);
    assert_eq!(check_room_cleared(1, 3, &mut cleared, 0), None);
    assert_eq!(check_room_cleared(1, 0, &mut cleared, 0), Some(RoomClearedEvent));
    assert!(cleared);
}

#[test]
fn clearing_and_new_room_in_one_look() {
    let mut cleared: bool = false;
    assert_eq!(check_room_cleared(2, 0, &mut cleared, 1), Some(RoomClearedEvent));
    assert!(!cleared);
}

#[test]
fn nothing_is_cleared_where_no_room_is_set_up() {
    let mut cleared: bool = false;
    assert_eq!(check_room_cleared(0, 0, &mut cleared, 0), None);
    assert!(!cleared);
}

#[test]
fn rooms_and_their_enemies_are_plain_values() {
    let event = SpawnRoomEvent { room: Room { enemies: vec![Enemy::Bomb, Enemy::Cat] } };
    assert_eq!(event.room.enemies.len(), 2);
    let spawn = SpawnEnemyEvent { enemy: Enemy::Bomb, translation: Position { x: 1, y: 2 } };
    assert_eq!(spawn.enemy, Enemy::Bomb);
    assert_ne!(spawn.enemy, Enemy::Cat);
}
