use ability_core::abilities::invisibility::{age_shadows, Invisible, Shadow, SHADOW_LIFETIME};
use ability_core::actor::{Actor, Target};
use ability_core::health::{Health, MaxHealth};
use ability_core::lifetime::Lifetime;
use ability_core::units::{Position, MILLISECOND, POINT, SECOND};

fn player() -> Actor {
    Actor::new(Position { x: 7, y: -9 }, MaxHealth(100), 5 * POINT, true)
}

#[test]
fn new_actor_is_in_full_health_and_unmarked() {
    let a = player();
    assert_eq!(a.health, Health(100));
    assert_eq!(a.target, Some(Target));
    assert_eq!(a.invisible, None);
    assert_eq!(a.slowed, None);
    assert_eq!(a.heat, None);
    assert_eq!(a.overheated, None);
    let b = Actor::new(Position { x: 0, y: 0 }, MaxHealth(3), 0, false);
    assert_eq!(b.target, None);
}

#[test]
fn heal_restores_full_health() {
    let mut a = player();
    a.health = Health(-3);
    a.heal();
    assert_eq!(a.health, Health(100));
}

#[test]
fn casting_hides_the_caster_behind_a_decoy() {
    let mut a = player();
    a.ability();
    assert_eq!(a.target, None);
    assert_eq!(
        a.invisible,
        Some(Invisible {
            shadow: Shadow {
                position: Position { x: 7, y: -9 },
                lifetime: Lifetime::new(3 * SECOND)
            }
        })
    );
    assert_eq!(SHADOW_LIFETIME, 3 * SECOND);
}

#[test]
fn decoy_stays_where_the_caster_stood() {
    let mut a = player();
    a.ability();
    a.position = Position { x: 100, y: 100 };
    a.age_shadow(SECOND);
    assert_eq!(a.invisible.unwrap().shadow.position, Position { x: 7, y: -9 });
    assert_eq!(a.invisible.unwrap().shadow.lifetime.0.elapsed, SECOND);
    assert_eq!(a.target, None);
}

#[test]
fn caster_is_a_target_again_when_the_decoy_times_out() {
    let mut a = player();
    a.ability();
    a.age_shadow(2_999 * MILLISECOND);
    assert!(a.invisible.is_some());
    assert_eq!(a.target, None);
    a.age_shadow(MILLISECOND);
    assert_eq!(a.invisible, None);
    assert_eq!(a.target, Some(Target));
}

#[test]
fn caster_is_a_target_again_when_the_decoy_dies() {
    let mut a = player();
    a.ability();
    a.age_shadow(SECOND);
    a.on_shadow_death();
    assert_eq!(a.invisible, None);
    assert_eq!(a.target, Some(Target));
}

#[test]
fn death_of_no_decoy_changes_nothing() {
    let mut a = Actor::new(Position { x: 0, y: 0 }, MaxHealth(3), 0, false);
    let before = a;
    a.on_shadow_death();
    assert_eq!(a, before);
    a.age_shadow(10 * SECOND);
    assert_eq!(a, before);
}

#[test]
fn casting_while_hidden_keeps_the_running_decoy() {
    let mut a = player();
    a.ability();
    a.age_shadow(SECOND);
    a.position = Position { x: 50, y: 50 };
    let before = a;
    a.ability();
    assert_eq!(a, before);
}

#[test]
fn decoys_age_in_every_slot() {
    let mut hidden = player();
    hidden.ability();
    let mut nearly = player();
    nearly.ability();
    nearly.age_shadow(2 * SECOND);
    let mut actors: Vec<Option<Actor>> = vec![Some(hidden), None, Some(nearly), Some(player())];
    age_shadows(&mut actors, SECOND);
    assert_eq!(actors[0].unwrap().invisible.unwrap().shadow.lifetime.0.elapsed, SECOND);
    assert_eq!(actors[0].unwrap().target, None);
    assert_eq!(actors[1], None);
    assert_eq!(actors[2].unwrap().invisible, None);
    assert_eq!(actors[2].unwrap().target, Some(Target));
    assert_eq!(actors[3], Some(player()));
}
