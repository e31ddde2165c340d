//! The power of the shotgun: a volley of three bullets, and what a bullet
//! does to what it hits.

use crate::countdown::Countdown;
use crate::health::DamageEvent;
use crate::lifetime::Lifetime;
use crate::units::{Position, PIXEL, POINT, SECOND};
use vstd::prelude::*;

verus! {

/// The speed of a bullet: five hundred and twelve pixels per second.
pub const BULLET_VELOCITY: u32 = 512 * PIXEL;

/// What a bullet takes off the health of what it hits: fifteen points.
pub const BULLET_DAMAGE: u64 = 15 * POINT;

/// The angle between neighbouring bullets of a volley, in degrees.
pub const SPREAD: i32 = 5;

/// How far from its caster a bullet starts: sixteen pixels.
pub const BULLET_OFFSET: u32 = 16 * PIXEL;

/// How long a bullet flies: two seconds.
pub const BULLET_LIFETIME: u64 = 2 * SECOND;

/// A bullet to be fired: it leaves the actor in slot `caster` in the
/// direction of `toward`, turned by `turn` degrees.
#[derive(Clone, Copy, Debug, PartialEq, Eq, Structural)]
pub struct Bullet {
    pub caster: usize,
    pub toward: Position,
    pub turn: i32,
    pub velocity: u32,
    pub offset: u32,
    pub lifetime: Lifetime,
}

/// The three bullets of one shot.
#[derive(Clone, Copy, Debug, PartialEq, Eq, Structural)]
pub struct Volley(pub Bullet, pub Bullet, pub Bullet);

/// A bullet has hit something that is no bullet: the bullet in `bullet` is
/// spent, and `damage` is dealt.
#[derive(Clone, Copy, Debug, PartialEq, Eq, Structural)]
pub struct BulletHit {
    pub bullet: usize,
    pub damage: DamageEvent,
}

/// The bullet of a volley that is turned by `turn` degrees.
pub open spec fn bullet(caster: usize, aim: Position, turn: int) -> Bullet {
    Bullet {
        caster,
        toward: aim,
        turn: turn as i32,
        velocity: BULLET_VELOCITY,
        offset: BULLET_OFFSET,
        lifetime: Lifetime(Countdown { elapsed: 0, duration: BULLET_LIFETIME, finished: false }),
    }
}

/// The volley of a caster: one bullet straight at the aim and one to either
/// side of it.
pub open spec fn volley(caster: usize, aim: Position) -> Volley {
    Volley(bullet(caster, aim, -SPREAD), bullet(caster, aim, 0), bullet(caster, aim, SPREAD as int))
}

/// What comes of two things that begin to touch, of which the first is a
/// bullet or not and the second is a bullet or not: a bullet that touches
/// what is no bullet hits it, and two bullets, or no bullet, do nothing.
pub open spec fn bullet_hit(
    first: usize,
    first_is_bullet: bool,
    second: usize,
    second_is_bullet: bool,
) -> Option<BulletHit> {
    if first_is_bullet && !second_is_bullet {
        Some(
            BulletHit {
                bullet: first,
                damage: DamageEvent { damaged_id: second, damage: BULLET_DAMAGE },
            },
        )
    } else if second_is_bullet && !first_is_bullet {
        Some(
            BulletHit {
                bullet: second,
                damage: DamageEvent { damaged_id: first, damage: BULLET_DAMAGE },
            },
        )
    } else {
        None
    }
}

fn fire(caster: usize, aim: Position, turn: i32) -> (b: Bullet)
    ensures
        b == bullet(caster, aim, turn as int),
{
    Bullet {
        caster,
        toward: aim,
        turn,
        velocity: BULLET_VELOCITY,
        offset: BULLET_OFFSET,
        lifetime: Lifetime::new(BULLET_LIFETIME),
    }
}

/// The power of the shotgun, for the caster in slot `caster` who aims at
/// `aim`.
pub fn shoot(caster: usize, aim: Position) -> (shot: Volley)
    ensures
        shot == volley(caster, aim),
{
    Volley(fire(caster, aim, -SPREAD), fire(caster, aim, 0), fire(caster, aim, SPREAD))
}

/// Decides what comes of two things that begin to touch.
pub fn hurt(first: usize, first_is_bullet: bool, second: usize, second_is_bullet: bool) -> (hit:
    Option<BulletHit>)
    ensures
        hit == bullet_hit(first, first_is_bullet, second, second_is_bullet),
{
    if first_is_bullet && !second_is_bullet {
        Some(
            BulletHit {
                bullet: first,
                damage: DamageEvent { damaged_id: second, damage: BULLET_DAMAGE },
            },
        )
    } else if second_is_bullet && !first_is_bullet {
        Some(
            BulletHit {
                bullet: second,
                damage: DamageEvent { damaged_id: first, damage: BULLET_DAMAGE },
            },
        )
    } else {
        None
    }
}

} // verus!
