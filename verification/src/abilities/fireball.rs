//! The power of the fireball: a charge that lies where it was aimed and goes
//! off when its fuse has burnt down.

use crate::countdown::Countdown;
use crate::explosion::ExplosionEvent;
use crate::units::{Position, MILLISECOND, PIXEL, POINT};
use vstd::prelude::*;

verus! {

/// How long the fuse of a fireball burns: a quarter of a second.
pub const FIREBALL_FUSE: u64 = 250 * MILLISECOND;

/// How far the explosion of a fireball reaches: thirty-two pixels.
pub const FIREBALL_RANGE: u32 = 32 * PIXEL;

/// The force of the explosion of a fireball: one hundred points.
pub const FIREBALL_FORCE: u64 = 100 * POINT;

/// The damage of the explosion of a fireball: two hundred points.
pub const FIREBALL_DAMAGE: u64 = 200 * POINT;

/// A fireball that lies at `position` until its fuse has burnt down.
#[derive(Clone, Copy, Debug, PartialEq, Eq, Structural)]
pub struct Fireball {
    pub position: Position,
    pub timer: Countdown,
}

impl Fireball {
    /// A fireball at `position` with a whole fuse.
    pub open spec fn at(position: Position) -> Fireball {
        Fireball {
            position,
            timer: Countdown { elapsed: 0, duration: FIREBALL_FUSE, finished: false },
        }
    }

    /// The explosion with which the fireball goes off.
    pub open spec fn explosion(self) -> ExplosionEvent {
        ExplosionEvent {
            position: self.position,
            range: FIREBALL_RANGE,
            force: FIREBALL_FORCE,
            damage: FIREBALL_DAMAGE,
        }
    }

    /// The fireball with its fuse `delta` shorter.
    pub open spec fn burnt(self, delta: u64) -> Fireball {
        Fireball { position: self.position, timer: self.timer.ticked(delta) }
    }
}

/// The fireballs that lie on after `delta`, each with its fuse that much
/// shorter, in their old order. Those whose fuse burns down within `delta`
/// are not among them.
pub open spec fn fireballs_left(fireballs: Seq<Fireball>, delta: u64) -> Seq<Fireball>
    decreases fireballs.len(),
{
    if fireballs.len() == 0 {
        Seq::empty()
    } else {
        let before = fireballs_left(fireballs.drop_last(), delta);
        if fireballs.last().timer.finishes_within(delta) {
            before
        } else {
            before.push(fireballs.last().burnt(delta))
        }
    }
}

/// The explosions of the fireballs whose fuse burns down within `delta`, in
/// the order of the fireballs.
pub open spec fn explosions(fireballs: Seq<Fireball>, delta: u64) -> Seq<ExplosionEvent>
    decreases fireballs.len(),
{
    if fireballs.len() == 0 {
        Seq::empty()
    } else {
        let before = explosions(fireballs.drop_last(), delta);
        if fireballs.last().timer.finishes_within(delta) {
            before.push(fireballs.last().explosion())
        } else {
            before
        }
    }
}

/// The power of the fireball: lays a fireball with a whole fuse at `aim`.
pub fn spawn_fireball(aim: Position, fireballs: &mut Vec<Fireball>) -> (laid: Fireball)
    ensures
        laid == Fireball::at(aim),
        final(fireballs)@ == old(fireballs)@.push(Fireball::at(aim)),
{
    let laid = Fireball { position: aim, timer: Countdown::new(FIREBALL_FUSE) };
    fireballs.push(laid);
    laid
}

/// Burns every fuse for `delta` nanoseconds. A fireball whose fuse has burnt
/// down goes off: it is taken away, and its explosion is announced.
pub fn handle_fireball_explosion(fireballs: &mut Vec<Fireball>, delta: u64) -> (events: Vec<
    ExplosionEvent,
>)
    ensures
        final(fireballs)@ == fireballs_left(old(fireballs)@, delta),
        events@ == explosions(old(fireballs)@, delta),
{
    let n = fireballs.len();
    let mut left: Vec<Fireball> = Vec::new();
    let mut events: Vec<ExplosionEvent> = Vec::new();
    let mut k: usize = 0;
    while k < n
        invariant
            n == fireballs@.len(),
            fireballs@ == old(fireballs)@,
            k <= n,
            left@ == fireballs_left(fireballs@.take(k as int), delta),
            events@ == explosions(fireballs@.take(k as int), delta),
        decreases n - k,
    {
        assert(fireballs@.take(k + 1).drop_last() =~= fireballs@.take(k as int));
        let mut fireball = fireballs[k];
        if fireball.timer.tick(delta) {
            events.push(
                ExplosionEvent {
                    position: fireball.position,
                    range: FIREBALL_RANGE,
                    force: FIREBALL_FORCE,
                    damage: FIREBALL_DAMAGE,
                },
            );
        } else {
            left.push(fireball);
        }
        k += 1;
    }
    assert(fireballs@.take(n as int) =~= fireballs@);
    *fireballs = left;
    events
}

/// Every fireball either lies on or goes off, and none does both; and a
/// fireball that lies on has a fuse that still burns, if it had one before.
pub proof fn lemma_fireballs_lie_or_go_off(fireballs: Seq<Fireball>, delta: u64)
    ensures
        fireballs_left(fireballs, delta).len() + explosions(fireballs, delta).len()
            == fireballs.len(),
        (forall|i: int| 0 <= i < fireballs.len() ==> !(#[trigger] fireballs[i]).timer.finished)
            ==> (forall|i: int|
            0 <= i < fireballs_left(fireballs, delta).len() ==> !(#[trigger] fireballs_left(
                fireballs,
                delta,
            )[i]).timer.finished),
    decreases fireballs.len(),
{
    if fireballs.len() > 0 {
        lemma_fireballs_lie_or_go_off(fireballs.drop_last(), delta);
        if forall|i: int| 0 <= i < fireballs.len() ==> !(#[trigger] fireballs[i]).timer.finished {
            assert forall|i: int| 0 <= i < fireballs.drop_last().len() implies !(
            #[trigger] fireballs.drop_last()[i]).timer.finished by {
                assert(fireballs.drop_last()[i] == fireballs[i]);
            }
            assert(!fireballs[fireballs.len() - 1].timer.finished);
        }
    }
}

} // verus!
