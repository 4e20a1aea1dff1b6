use vstd::prelude::*;
use crate::formation::Enemy;
use crate::timer::{Timer, TimerMode};

verus! {

/// Frames in the explosion strip.
pub const EXPLOSION_FRAMES: usize = 4;

/// Ticks each frame is shown (0.1 seconds).
pub const FRAME_TICKS: u32 = 6;

/// A short-lived animation where an enemy was destroyed.
#[derive(Clone, Copy, Debug, PartialEq, Eq, Structural)]
pub struct Explosion {
    pub x: i64,
    pub y: i64,
    pub frame: usize,
    pub timer: Timer,
}

/// The explosion that starts where `e` stood.
pub open spec fn explosion_of(e: Enemy) -> Explosion {
    Explosion {
        x: e.body.x,
        y: e.body.y,
        frame: 0,
        timer: Timer { duration: FRAME_TICKS, elapsed: 0, mode: TimerMode::Repeating, just_finished: false },
    }
}

/// `x` after one tick: on each completion of its timer it moves to the next
/// frame, and it ends instead of moving past the last one.
pub open spec fn animated(x: Explosion) -> Option<Explosion> {
    let t = x.timer.ticked(1);
    if t.just_finished {
        if x.frame >= EXPLOSION_FRAMES - 1 {
            None
        } else {
            Some(Explosion { frame: (x.frame + 1) as usize, timer: t, ..x })
        }
    } else {
        Some(Explosion { timer: t, ..x })
    }
}

/// The explosions of `xs` after one tick, in order, without those that
/// ended.
pub open spec fn animate(xs: Seq<Explosion>) -> Seq<Explosion>
    decreases xs.len(),
{
    if xs.len() == 0 {
        xs
    } else {
        match animated(xs.last()) {
            Some(y) => animate(xs.drop_last()).push(y),
            None => animate(xs.drop_last()),
        }
    }
}

/// Starts an explosion where each of `kills` stood.
pub fn spawn_explosions(explosions: &mut Vec<Explosion>, kills: &Vec<Enemy>)
    ensures
        final(explosions)@ == old(explosions)@ + kills@.map_values(|e: Enemy| explosion_of(e)),
{
    let ghost xs0 = explosions@;
    let mut i: usize = 0;
    while i < kills.len()
        invariant
            i <= kills@.len(),
            explosions@ == xs0 + kills@.take(i as int).map_values(|e: Enemy| explosion_of(e)),
        decreases kills@.len() - i,
    {
        let e = kills[i];
        explosions.push(
            Explosion {
                x: e.body.x,
                y: e.body.y,
                frame: 0,
                timer: Timer::new(FRAME_TICKS, TimerMode::Repeating),
            },
        );
        proof {
            assert(kills@.take(i + 1).map_values(|e: Enemy| explosion_of(e)) =~= kills@.take(i as int).map_values(
                |e: Enemy| explosion_of(e),
            ).push(explosion_of(e)));
        }
        i += 1;
    }
    assert(kills@.take(kills@.len() as int) =~= kills@);
}

/// Advances every explosion by one tick and removes those that have shown
/// their last frame.
pub fn animate_explosions(explosions: &mut Vec<Explosion>)
    requires
        forall|i: int| 0 <= i < old(explosions)@.len() ==> (#[trigger] old(explosions)@[i]).timer.wf(),
    ensures
        final(explosions)@ == animate(old(explosions)@),
        forall|i: int| 0 <= i < final(explosions)@.len() ==> (#[trigger] final(explosions)@[i]).timer.wf(),
{
    let ghost xs0 = explosions@;
    let mut kept: Vec<Explosion> = Vec::new();
    let mut i: usize = 0;
    while i < explosions.len()
        invariant
            explosions@ == xs0,
            i <= xs0.len(),
            forall|j: int| 0 <= j < xs0.len() ==> (#[trigger] xs0[j]).timer.wf(),
            kept@ == animate(xs0.take(i as int)),
            forall|j: int| 0 <= j < kept@.len() ==> (#[trigger] kept@[j]).timer.wf(),
        decreases xs0.len() - i,
    {
        let mut x = explosions[i];
        proof {
            assert(xs0.take(i + 1).drop_last() =~= xs0.take(i as int));
            assert(xs0.take(i + 1).last() == x);
            assert(xs0[i as int].timer.wf());
        }
        x.timer.tick(1);
        if x.timer.just_finished {
            if x.frame < EXPLOSION_FRAMES - 1 {
                x.frame = x.frame + 1;
                kept.push(x);
            }
        } else {
            kept.push(x);
        }
        i += 1;
    }
    assert(xs0.take(xs0.len() as int) =~= xs0);
    *explosions = kept;
}

} // verus!
