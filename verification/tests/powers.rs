use ability_core::abilities::fireball::{
    handle_fireball_explosion, spawn_fireball, Fireball, FIREBALL_FUSE,
};
use ability_core::abilities::shotgun::{hurt, shoot, Bullet, BulletHit, Volley};
use ability_core::abilities::take_damage::take_damage;
use ability_core::abilities::teleport::{handle_teleport, Teleport};
use ability_core::abilities::wall::spawn_icewall;
use ability_core::abilities::{Power, SideEffect};
use ability_core::countdown::Countdown;
use ability_core::explosion::ExplosionEvent;
use ability_core::health::DamageEvent;
use ability_core::lifetime::Lifetime;
use ability_core::units::{Position, MILLISECOND, PIXEL, POINT, SECOND};

#[test]
fn defaults_are_the_first_of_each_kind() {
    assert_eq!(Power::default(), Power::Teleport);
    assert_eq!(SideEffect::default(), SideEffect::TakeDamage);
}

#[test]
fn teleport_goes_toward_the_aim_for_sixty_four_pixels_at_most() {
    let aim = Position { x: 500_000, y: -3 };
    assert_eq!(
        handle_teleport(4, aim),
        Teleport { caster: 4, toward: aim, max_distance: 64 * PIXEL }
    );
}

#[test]
fn ice_wall_has_the_fixed_measures() {
    let aim = Position { x: 1, y: 2 };
    let wall = spawn_icewall(3, aim);
    assert_eq!(wall.caster, 3);
    assert_eq!(wall.toward, aim);
    assert_eq!(wall.max_distance, 64 * PIXEL);
    assert_eq!(wall.length, 64 * PIXEL);
    assert_eq!(wall.thickness, 8 * PIXEL);
    assert_eq!(wall.lifetime, Lifetime::new(2 * SECOND));
}

#[test]
fn shotgun_fires_three_bullets_five_degrees_apart() {
    let aim = Position { x: 10, y: 20 };
    let Volley(left, middle, right) = shoot(2, aim);
    assert_eq!(left.turn, -5);
    assert_eq!(middle.turn, 0);
    assert_eq!(right.turn, 5);
    let expected = Bullet {
        caster: 2,
        toward: aim,
        turn: 0,
        velocity: 512 * PIXEL,
        offset: 16 * PIXEL,
        lifetime: Lifetime::new(2 * SECOND),
    };
    assert_eq!(middle, expected);
    assert_eq!(left, Bullet { turn: -5, ..expected });
    assert_eq!(right, Bullet { turn: 5, ..expected });
}

#[test]
fn bullet_hurts_what_is_no_bullet() {
    assert_eq!(
        hurt(10, true, 3, false),
        Some(BulletHit {
            bullet: 10,
            damage: DamageEvent { damaged_id: 3, damage: 15 * POINT }
        })
    );
    assert_eq!(
        hurt(3, false, 10, true),
        Some(BulletHit {
            bullet: 10,
            damage: DamageEvent { damaged_id: 3, damage: 15 * POINT }
        })
    );
}

#[test]
fn two_bullets_or_none_do_nothing() {
    assert_eq!(hurt(10, true, 11, true), None);
    assert_eq!(hurt(1, false, 2, false), None);
}

#[test]
fn self_damage_is_five_points_to_the_caster() {
    assert_eq!(take_damage(9), DamageEvent { damaged_id: 9, damage: 5 * POINT });
}

#[test]
fn fireball_is_laid_at_the_aim_with_a_whole_fuse() {
    let mut fireballs: Vec<Fireball> = Vec::new();
    let aim = Position { x: -4, y: 4 };
    let laid = spawn_fireball(aim, &mut fireballs);
    assert_eq!(
        laid,
        Fireball {
            position: aim,
            timer: Countdown { elapsed: 0, duration: 250 * MILLISECOND, finished: false }
        }
    );
    assert_eq!(fireballs, vec![laid]);
    assert_eq!(FIREBALL_FUSE, 250 * MILLISECOND);
}

#[test]
fn fireball_goes_off_when_its_fuse_has_burnt_down() {
    let mut fireballs: Vec<Fireball> = Vec::new();
    let first = Position { x: 1, y: 1 };
    let second = Position { x: 2, y: 2 };
    spawn_fireball(first, &mut fireballs);
    let none: Vec<ExplosionEvent> = handle_fireball_explosion(&mut fireballs, 100 * MILLISECOND);
    assert!(none.is_empty());
    spawn_fireball(second, &mut fireballs);
    assert_eq!(fireballs[0].timer.elapsed, 100 * MILLISECOND);
    let blasts: Vec<ExplosionEvent> = handle_fireball_explosion(&mut fireballs, 150 * MILLISECOND);
    assert_eq!(
        blasts,
        vec![ExplosionEvent {
            position: first,
            range: 32 * PIXEL,
            force: 100 * POINT,
            damage: 200 * POINT
        }]
    );
    assert_eq!(fireballs.len(), 1);
    assert_eq!(fireballs[0].position, second);
    assert_eq!(fireballs[0].timer.elapsed, 150 * MILLISECOND);
    let blasts: Vec<ExplosionEvent> = handle_fireball_explosion(&mut fireballs, SECOND);
    assert_eq!(blasts.len(), 1);
    assert_eq!(blasts[0].position, second);
    assert!(fireballs.is_empty());
}

#[test]
fn fireballs_keep_their_order() {
    let mut fireballs: Vec<Fireball> = Vec::new();
    let mut k: i32 = 0;
    while k < 5 {
        spawn_fireball(Position { x: k, y: 0 }, &mut fireballs);
        k += 1;
    }
    fireballs[1].timer.tick(200 * MILLISECOND);
    fireballs[3].timer.tick(200 * MILLISECOND);
    let blasts: Vec<ExplosionEvent> = handle_fireball_explosion(&mut fireballs, 50 * MILLISECOND);
    assert_eq!(blasts.len(), 2);
    assert_eq!(blasts[0].position.x, 1);
    assert_eq!(blasts[1].position.x, 3);
    assert_eq!(fireballs.len(), 3);
    assert_eq!(fireballs[0].position.x, 0);
    assert_eq!(fireballs[1].position.x, 2);
    assert_eq!(fireballs[2].position.x, 4);
}
