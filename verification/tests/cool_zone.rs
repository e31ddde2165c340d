use ability_core::abilities::cool_zone::{
    age_zones, cool_down, is_covered, slow_movement, spawn_zone, total_slowdown, unslow_movement,
    CoolZone, Slowed, COOL_ZONE_COOLING_SPEED, COOL_ZONE_LIFETIME, COOL_ZONE_RADIUS,
    COOL_ZONE_SLOWDOWN,
};
use ability_core::abilities::heat::Heat;
use ability_core::actor::Actor;
use ability_core::health::MaxHealth;
use ability_core::lifetime::Lifetime;
use ability_core::units::{is_within, Position, MILLISECOND, PIXEL, POINT, SECOND};

fn at(x: i32, y: i32) -> Position {
    Position { x: x * PIXEL as i32, y: y * PIXEL as i32 }
}

fn zone_at(x: i32, y: i32) -> CoolZone {
    CoolZone {
        cooling_speed: COOL_ZONE_COOLING_SPEED,
        slowdown: COOL_ZONE_SLOWDOWN,
        radius: COOL_ZONE_RADIUS,
        position: at(x, y),
        lifetime: Lifetime::new(COOL_ZONE_LIFETIME),
    }
}

fn actor_at(x: i32, y: i32) -> Actor {
    let mut a = Actor::new(at(x, y), MaxHealth(100), 5 * POINT, false);
    a.heat = Some(Heat(50 * POINT));
    a
}

#[test]
fn the_border_of_a_disc_is_inside() {
    let centre = Position { x: 0, y: 0 };
    assert!(is_within(Position { x: 3, y: 4 }, centre, 5));
    assert!(!is_within(Position { x: 3, y: 4 }, centre, 4));
    assert!(is_within(Position { x: -3, y: -4 }, centre, 5));
    assert!(is_within(centre, centre, 0));
    assert!(!is_within(Position { x: 1, y: 0 }, centre, 0));
}

#[test]
fn distances_between_the_corners_of_the_plane_do_not_overflow() {
    let low = Position { x: i32::MIN, y: i32::MIN };
    let high = Position { x: i32::MAX, y: i32::MAX };
    assert!(!is_within(low, high, u32::MAX));
    assert!(is_within(low, Position { x: i32::MAX, y: i32::MIN }, u32::MAX));
    assert!(!is_within(low, Position { x: i32::MAX, y: i32::MIN }, u32::MAX - 1));
}

#[test]
fn cast_zone_has_the_fixed_measures() {
    let mut zones: Vec<CoolZone> = Vec::new();
    let zone = spawn_zone(at(3, 4), &mut zones);
    assert_eq!(zone.cooling_speed, 20);
    assert_eq!(zone.slowdown, 15 * POINT);
    assert_eq!(zone.radius, 64 * PIXEL);
    assert_eq!(zone.position, at(3, 4));
    assert_eq!(zone.lifetime, Lifetime::new(SECOND));
    assert_eq!(zones, vec![zone]);
}

#[test]
fn zone_cools_inside_and_not_outside() {
    let zones: Vec<CoolZone> = vec![zone_at(0, 0)];
    let mut inside = actor_at(30, 40);
    inside.cool_down(&zones, SECOND);
    assert_eq!(inside.heat, Some(Heat(30 * POINT)));
    inside.cool_down(&zones, 500 * MILLISECOND);
    assert_eq!(inside.heat, Some(Heat(20 * POINT)));
    inside.position = at(70, 0);
    inside.cool_down(&zones, SECOND);
    assert_eq!(inside.heat, Some(Heat(20 * POINT)));
    inside.position = at(64, 0);
    inside.cool_down(&zones, SECOND);
    assert_eq!(inside.heat, Some(Heat(0)));
}

#[test]
fn overlapping_zones_cool_together_and_stop_at_nothing() {
    let zones: Vec<CoolZone> = vec![zone_at(0, 0), zone_at(10, 0), zone_at(500, 500)];
    let mut a = actor_at(5, 0);
    a.cool_down(&zones, SECOND);
    assert_eq!(a.heat, Some(Heat(10 * POINT)));
    a.cool_down(&zones, SECOND);
    assert_eq!(a.heat, Some(Heat(0)));
}

#[test]
fn covered_and_total_slowdown() {
    let mut wide = zone_at(0, 0);
    wide.slowdown = 7 * POINT;
    let zones: Vec<CoolZone> = vec![zone_at(100, 0), wide, zone_at(0, 50)];
    assert!(is_covered(&zones, at(0, 0)));
    assert_eq!(total_slowdown(&zones, at(0, 0)), 22 * POINT);
    assert_eq!(total_slowdown(&zones, at(100, 0)), 15 * POINT);
    assert!(!is_covered(&zones, at(-100, 0)));
    assert_eq!(total_slowdown(&zones, at(-100, 0)), 0);
    assert!(!is_covered(&Vec::new(), at(0, 0)));
}

#[test]
fn total_slowdown_stops_at_the_top_of_the_integer() {
    let mut huge = zone_at(0, 0);
    huge.slowdown = u64::MAX - 1;
    let zones: Vec<CoolZone> = vec![huge, huge];
    assert_eq!(total_slowdown(&zones, at(0, 0)), u64::MAX);
}

#[test]
fn slowdown_is_taken_off_to_the_unit() {
    let zones: Vec<CoolZone> = vec![zone_at(0, 0)];
    let mut a = actor_at(10, 10);
    a.slow_movement(&zones);
    assert_eq!(a.damping, 20 * POINT);
    assert_eq!(a.slowed, Some(Slowed(15 * POINT)));
    a.unslow_movement(&zones);
    assert_eq!(a.damping, 20 * POINT);
    a.position = at(100, 100);
    a.unslow_movement(&zones);
    assert_eq!(a.damping, 5 * POINT);
    assert_eq!(a.slowed, None);
}

#[test]
fn slowed_actor_is_not_slowed_again() {
    let mut zones: Vec<CoolZone> = vec![zone_at(0, 0)];
    let mut a = actor_at(0, 0);
    a.slow_movement(&zones);
    zones.push(zone_at(1, 1));
    a.slow_movement(&zones);
    assert_eq!(a.damping, 20 * POINT);
    assert_eq!(a.slowed, Some(Slowed(15 * POINT)));
}

#[test]
fn overlapping_zones_at_entry_add_up_and_come_off_together() {
    let zones: Vec<CoolZone> = vec![zone_at(0, 0), zone_at(1, 1)];
    let mut a = actor_at(0, 0);
    a.slow_movement(&zones);
    assert_eq!(a.damping, 35 * POINT);
    assert_eq!(a.slowed, Some(Slowed(30 * POINT)));
    let one: Vec<CoolZone> = vec![zone_at(1, 1)];
    a.unslow_movement(&one);
    assert_eq!(a.damping, 35 * POINT);
    let none: Vec<CoolZone> = Vec::new();
    a.unslow_movement(&none);
    assert_eq!(a.damping, 5 * POINT);
    assert_eq!(a.slowed, None);
}

#[test]
fn slowdown_that_does_not_fit_is_recorded_as_applied() {
    let mut heavy = zone_at(0, 0);
    heavy.slowdown = u64::MAX;
    let zones: Vec<CoolZone> = vec![heavy];
    let mut a = actor_at(0, 0);
    a.slow_movement(&zones);
    assert_eq!(a.damping, u64::MAX);
    assert_eq!(a.slowed, Some(Slowed(u64::MAX - 5 * POINT)));
    a.position = at(1000, 0);
    a.unslow_movement(&zones);
    assert_eq!(a.damping, 5 * POINT);
}

#[test]
fn zone_systems_run_over_every_slot() {
    let zones: Vec<CoolZone> = vec![zone_at(0, 0)];
    let mut actors: Vec<Option<Actor>> = vec![Some(actor_at(0, 0)), None, Some(actor_at(200, 0))];
    cool_down(&mut actors, &zones, SECOND);
    assert_eq!(actors[0].unwrap().heat, Some(Heat(30 * POINT)));
    assert_eq!(actors[2].unwrap().heat, Some(Heat(50 * POINT)));
    slow_movement(&mut actors, &zones);
    assert_eq!(actors[0].unwrap().slowed, Some(Slowed(15 * POINT)));
    assert_eq!(actors[0].unwrap().damping, 20 * POINT);
    assert_eq!(actors[1], None);
    assert_eq!(actors[2].unwrap().slowed, None);
    unslow_movement(&mut actors, &zones);
    assert_eq!(actors[0].unwrap().slowed, Some(Slowed(15 * POINT)));
    unslow_movement(&mut actors, &Vec::new());
    assert_eq!(actors[0].unwrap().slowed, None);
    assert_eq!(actors[0].unwrap().damping, 5 * POINT);
    assert_eq!(actors[2].unwrap().damping, 5 * POINT);
}

#[test]
fn zones_go_when_their_lifetime_ends() {
    let mut old = zone_at(0, 0);
    old.lifetime.tick(900 * MILLISECOND);
    let mut zones: Vec<CoolZone> = vec![zone_at(1, 0), old, zone_at(2, 0)];
    age_zones(&mut zones, 100 * MILLISECOND);
    assert_eq!(zones.len(), 2);
    assert_eq!(zones[0].position, at(1, 0));
    assert_eq!(zones[1].position, at(2, 0));
    assert_eq!(zones[0].lifetime.0.elapsed, 100 * MILLISECOND);
    age_zones(&mut zones, 900 * MILLISECOND);
    assert!(zones.is_empty());
}
