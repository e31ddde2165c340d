use ability_core::abilities::cooldown::{cooldown_timer, AbilityCooldown, AbilityCooldownTime};
use ability_core::abilities::{Ability, Power};
use ability_core::countdown::{Countdown, WHOLE};
use ability_core::lifetime::{lifetime_system, Lifetime};
use ability_core::units::{MILLISECOND, SECOND};
use bevy::time::{Timer, TimerMode};
use std::time::Duration;

#[test]
fn new_countdown_has_not_started() {
    let c = Countdown::new(5 * SECOND);
    assert_eq!(c, Countdown { elapsed: 0, duration: 5 * SECOND, finished: false });
    assert!(!c.finished());
    assert_eq!(c.remaining(), 5 * SECOND);
    assert_eq!(c.percent(), 0);
    assert_eq!(c.percent_left(), WHOLE);
}

#[test]
fn tick_moves_the_elapsed_time_on() {
    let mut c = Countdown::new(10 * SECOND);
    let done: bool = c.tick(250 * MILLISECOND);
    assert!(!done);
    assert_eq!(c.elapsed, 250 * MILLISECOND);
    assert_eq!(c.duration, 10 * SECOND);
    assert!(!c.finished);
    assert_eq!(c.percent(), 25_000_000);
    assert_eq!(c.percent_left(), 975_000_000);
    assert_eq!(c.remaining(), 9_750 * MILLISECOND);
}

#[test]
fn tick_past_the_end_stops_at_the_duration() {
    let mut c = Countdown::new(10 * SECOND);
    assert!(!c.tick(250 * MILLISECOND));
    assert!(c.tick(500 * SECOND));
    assert_eq!(c.elapsed, 10 * SECOND);
    assert!(c.finished());
    assert_eq!(c.percent(), WHOLE);
    assert_eq!(c.percent_left(), 0);
    assert_eq!(c.remaining(), 0);
}

#[test]
fn tick_to_the_very_end_finishes() {
    let mut c = Countdown::new(SECOND);
    assert!(!c.tick(SECOND - 1));
    assert_eq!(c.elapsed, SECOND - 1);
    assert!(c.tick(1));
    assert_eq!(c.elapsed, SECOND);
    assert!(c.finished);
}

#[test]
fn finished_countdown_no_longer_moves() {
    let mut c = Countdown::new(SECOND);
    assert!(c.tick(2 * SECOND));
    let before = c;
    assert!(!c.tick(SECOND));
    assert_eq!(c, before);
}

#[test]
fn countdown_of_no_duration_finishes_with_its_first_tick() {
    let mut c = Countdown::new(0);
    assert!(!c.finished());
    assert_eq!(c.percent(), WHOLE);
    assert_eq!(c.percent_left(), 0);
    assert!(c.tick(0));
    assert!(c.finished());
}

#[test]
fn tick_with_the_longest_times_does_not_overflow() {
    let mut c = Countdown::new(u64::MAX);
    assert!(!c.tick(u64::MAX - 1));
    assert_eq!(c.elapsed, u64::MAX - 1);
    assert!(c.tick(u64::MAX));
    assert_eq!(c.elapsed, u64::MAX);
}

#[test]
fn percent_left_never_grows_while_ticking() {
    let mut c = Countdown::new(7 * SECOND);
    let mut last: u64 = c.percent_left();
    let mut ticks: u32 = 0;
    while !c.finished() {
        c.tick(333 * MILLISECOND);
        let now: u64 = c.percent_left();
        assert!(now <= last);
        last = now;
        ticks += 1;
    }
    assert_eq!(last, 0);
    assert_eq!(ticks, 22);
}

#[test]
fn countdown_agrees_with_the_timer_it_stands_for() {
    let mut c = Countdown::new(3 * SECOND);
    let mut t = Timer::new(Duration::from_secs(3), TimerMode::Once);
    let deltas: Vec<u64> = vec![0, 1, 999_999_999, SECOND, 123_456_789, SECOND, SECOND];
    for delta in deltas {
        let done: bool = c.tick(delta);
        t.tick(Duration::from_nanos(delta));
        assert_eq!(done, t.just_finished());
        assert_eq!(c.finished(), t.finished());
        assert_eq!(c.elapsed as u128, t.elapsed().as_nanos());
        assert_eq!(c.remaining() as u128, t.remaining().as_nanos());
        let percent: f32 = c.percent() as f32 / WHOLE as f32;
        assert!((percent - t.percent()).abs() < 0.000_001);
    }
    assert!(c.finished());
}

#[test]
fn ability_cooldown_new_and_default() {
    let c = AbilityCooldown::new(5 * SECOND);
    assert_eq!(c.0, Countdown { elapsed: 0, duration: 5 * SECOND, finished: false });
    let d = AbilityCooldown::default();
    assert_eq!(d.0, Countdown { elapsed: 0, duration: SECOND, finished: false });
    assert_eq!(d.percent(), 0);
    assert_eq!(d.percent_left(), WHOLE);
}

#[test]
fn ability_cools_down_and_is_ready_again() {
    let mut a = Ability::new(Power::Fireball, None, AbilityCooldownTime(SECOND), None);
    assert!(!a.is_cooling());
    a.apply_cooldown_time();
    assert!(a.is_cooling());
    assert_eq!(a.cooldown, Some(AbilityCooldown::new(SECOND)));
    a.cool(400 * MILLISECOND);
    assert!(a.is_cooling());
    assert_eq!(a.cooldown.unwrap().percent(), 400_000_000);
    assert_eq!(a.cooldown.unwrap().percent_left(), 600_000_000);
    a.cool(400 * MILLISECOND);
    assert_eq!(a.cooldown.unwrap().percent_left(), 200_000_000);
    a.cool(400 * MILLISECOND);
    assert!(!a.is_cooling());
    assert_eq!(a.cooldown, None);
}

#[test]
fn arming_a_cooling_ability_keeps_the_running_cooldown() {
    let mut a = Ability::new(Power::Shotgun, None, AbilityCooldownTime(SECOND), None);
    a.apply_cooldown_time();
    a.cool(300 * MILLISECOND);
    let before = a;
    a.apply_cooldown_time();
    assert_eq!(a, before);
}

#[test]
fn cooldown_timer_ticks_every_ability() {
    let mut ready = Ability::new(Power::Teleport, None, AbilityCooldownTime(5 * SECOND), None);
    let mut short = Ability::new(Power::Shotgun, None, AbilityCooldownTime(100 * MILLISECOND), None);
    let mut long = Ability::new(Power::Fireball, None, AbilityCooldownTime(SECOND), None);
    short.apply_cooldown_time();
    long.apply_cooldown_time();
    let mut abilities: Vec<Ability> = vec![ready, short, long];
    cooldown_timer(&mut abilities, 100 * MILLISECOND);
    ready.cool(100 * MILLISECOND);
    assert_eq!(abilities[0], ready);
    assert_eq!(abilities[0].cooldown, None);
    assert_eq!(abilities[1].cooldown, None);
    assert_eq!(
        abilities[2].cooldown,
        Some(AbilityCooldown(Countdown {
            elapsed: 100 * MILLISECOND,
            duration: SECOND,
            finished: false
        }))
    );
}

#[test]
fn lifetime_system_tells_whose_time_is_up() {
    let mut lifetimes: Vec<Lifetime> =
        vec![Lifetime::new(SECOND), Lifetime::new(2 * SECOND), Lifetime::new(200 * MILLISECOND)];
    let ended: Vec<bool> = lifetime_system(&mut lifetimes, 200 * MILLISECOND);
    assert_eq!(ended, vec![false, false, true]);
    assert_eq!(lifetimes[0].0.elapsed, 200 * MILLISECOND);
    assert_eq!(lifetimes[2].0.elapsed, 200 * MILLISECOND);
    assert!(lifetimes[2].0.finished);
    let ended: Vec<bool> = lifetime_system(&mut lifetimes, 800 * MILLISECOND);
    assert_eq!(ended, vec![true, false, false]);
    let ended: Vec<bool> = lifetime_system(&mut lifetimes, SECOND);
    assert_eq!(ended, vec![false, true, false]);
}
