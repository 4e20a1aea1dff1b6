use vstd::prelude::*;
use crate::control::{GameState, Input};
use crate::geometry::Body;
use crate::projectile::{Projectile, PLAYER_SHOT_VX, PLAYER_SHOT_VY, PROJECTILE_HEIGHT, PROJECTILE_WIDTH};
use crate::timer::{cycle, cycle_step, lemma_cycle_counts, Timer, TimerMode};

verus! {

/// Distance the player covers in one tick (400 pixels per second).
pub const PLAYER_STEP: i64 = 4000;

/// Ticks between two shots (0.3 seconds).
pub const FIRE_COOLDOWN_TICKS: u32 = 18;

/// Where the player starts, and the size of its box.
pub const PLAYER_START_X: i64 = 0;

pub const PLAYER_START_Y: i64 = -180000;

pub const PLAYER_WIDTH: u32 = 18000;

pub const PLAYER_HEIGHT: u32 = 19200;

/// Right adds one, left takes one away; both together cancel.
pub open spec fn direction(input: Input) -> int {
    (if input.right {
        1int
    } else {
        0int
    }) - (if input.left {
        1int
    } else {
        0int
    })
}

/// The horizontal move of the player on a tick in state `gs`.
pub open spec fn player_shift(gs: GameState, input: Input) -> int {
    if gs.is_active() {
        direction(input) * PLAYER_STEP
    } else {
        0
    }
}

/// Whether one more move keeps the player's `x` within `i64`.
pub open spec fn can_move(b: Body) -> bool {
    i64::MIN + PLAYER_STEP <= b.x <= i64::MAX - PLAYER_STEP
}

/// The player's box after a tick.
pub open spec fn moved_player(b: Body, gs: GameState, input: Input) -> Body {
    Body { x: (b.x + player_shift(gs, input)) as i64, ..b }
}

/// The shot that leaves the player's position.
pub open spec fn player_shot(b: Body) -> Projectile {
    Projectile {
        body: Body { x: b.x, y: b.y, width: PROJECTILE_WIDTH, height: PROJECTILE_HEIGHT },
        vx: PLAYER_SHOT_VX,
        vy: PLAYER_SHOT_VY,
    }
}

/// The cooldown after a tick, and whether a shot leaves on it: the cooldown
/// runs while fire is held and the game is active, and a shot leaves each
/// time it completes.
pub open spec fn fire_step(t: Timer, gs: GameState, input: Input) -> (Timer, bool) {
    if gs.is_active() && input.fire {
        cycle_step(t)
    } else {
        (t, false)
    }
}

/// Moves the player sideways by the held keys, while the game is active.
/// No bound of the play area is applied.
pub fn move_player(player: &mut Body, gs: &GameState, input: &Input)
    requires
        can_move(*old(player)),
    ensures
        *final(player) == moved_player(*old(player), *gs, *input),
{
    if gs.active() {
        if input.left {
            player.x = player.x - PLAYER_STEP;
        }
        if input.right {
            player.x = player.x + PLAYER_STEP;
        }
    }
}

/// Fires a shot from the player's position each time the cooldown
/// completes while fire is held and the game is active. Returns whether a
/// shot left on this tick.
pub fn shoot_projectile(
    cooldown: &mut Timer,
    projectiles: &mut Vec<Projectile>,
    player: &Body,
    gs: &GameState,
    input: &Input,
) -> (fired: bool)
    requires
        old(cooldown).wf(),
    ensures
        (*final(cooldown), fired) == fire_step(*old(cooldown), *gs, *input),
        final(cooldown).wf(),
        final(projectiles)@ == if fired {
            old(projectiles)@.push(player_shot(*player))
        } else {
            old(projectiles)@
        },
{
    if gs.active() && input.fire {
        cooldown.tick(1);
        if cooldown.finished() {
            cooldown.reset();
            projectiles.push(
                Projectile {
                    body: Body { x: player.x, y: player.y, width: PROJECTILE_WIDTH, height: PROJECTILE_HEIGHT },
                    vx: PLAYER_SHOT_VX,
                    vy: PLAYER_SHOT_VY,
                },
            );
            return true;
        }
    }
    false
}

/// The player's box after a run of ticks, each with its game state and
/// keys.
pub open spec fn player_after(b: Body, ticks: Seq<(GameState, Input)>) -> Body
    decreases ticks.len(),
{
    if ticks.len() == 0 {
        b
    } else {
        moved_player(player_after(b, ticks.drop_last()), ticks.last().0, ticks.last().1)
    }
}

/// The sum of the player's moves over a run of ticks.
pub open spec fn shift_total(ticks: Seq<(GameState, Input)>) -> int
    decreases ticks.len(),
{
    if ticks.len() == 0 {
        0
    } else {
        shift_total(ticks.drop_last()) + player_shift(ticks.last().0, ticks.last().1)
    }
}

/// After any run of ticks the player's `x` has moved by the sum of
/// `direction * PLAYER_STEP` over the ticks on which the game was active,
/// provided every partial sum stays within `i64`; nothing else about its
/// box changes. With no key held it stays where it was.
pub proof fn lemma_movement_sum(b: Body, ticks: Seq<(GameState, Input)>)
    requires
        forall|k: int|
            0 <= k <= ticks.len() ==> i64::MIN <= b.x + #[trigger] shift_total(ticks.take(k)) <= i64::MAX,
    ensures
        player_after(b, ticks).x == b.x + shift_total(ticks),
        player_after(b, ticks).y == b.y,
        player_after(b, ticks).width == b.width,
        player_after(b, ticks).height == b.height,
        (forall|i: int| 0 <= i < ticks.len() ==> direction(#[trigger] ticks[i].1) == 0) ==> player_after(b, ticks) == b,
    decreases ticks.len(),
{
    if ticks.len() > 0 {
        let prev = ticks.drop_last();
        assert forall|k: int| 0 <= k <= prev.len() implies i64::MIN <= b.x + #[trigger] shift_total(prev.take(k))
            <= i64::MAX by {
            assert(prev.take(k) =~= ticks.take(k));
        }
        lemma_movement_sum(b, prev);
        assert(ticks.take(ticks.len() as int) =~= ticks);
        if forall|i: int| 0 <= i < ticks.len() ==> direction(#[trigger] ticks[i].1) == 0 {
            assert(direction(ticks[ticks.len() - 1].1) == 0);
            assert forall|i: int| 0 <= i < prev.len() implies direction(#[trigger] prev[i].1) == 0 by {
                assert(prev[i] == ticks[i]);
            }
        }
    }
}

/// The cooldown after a run of ticks, and the shots fired over them.
pub open spec fn shots_fired(t: Timer, ticks: Seq<(GameState, Input)>) -> (Timer, nat)
    decreases ticks.len(),
{
    if ticks.len() == 0 {
        (t, 0)
    } else {
        let prev = shots_fired(t, ticks.drop_last());
        let s = fire_step(prev.0, ticks.last().0, ticks.last().1);
        (s.0, prev.1 + if s.1 {
            1nat
        } else {
            0nat
        })
    }
}

/// Holding fire for `n` ticks of active play, from a cooldown of `d` ticks
/// that has not run, fires exactly `n / d` shots, at most one per tick.
pub proof fn lemma_fire_rate(t: Timer, ticks: Seq<(GameState, Input)>)
    requires
        t.wf(),
        t.mode == TimerMode::Once,
        t.elapsed == 0,
        !t.just_finished,
        forall|i: int| 0 <= i < ticks.len() ==> (#[trigger] ticks[i]).0.is_active() && ticks[i].1.fire,
    ensures
        shots_fired(t, ticks).1 == ticks.len() / (t.duration as nat),
{
    lemma_fire_run_is_cycle(t, ticks);
    lemma_cycle_counts(t, ticks.len());
}

proof fn lemma_fire_run_is_cycle(t: Timer, ticks: Seq<(GameState, Input)>)
    requires
        forall|i: int| 0 <= i < ticks.len() ==> (#[trigger] ticks[i]).0.is_active() && ticks[i].1.fire,
    ensures
        shots_fired(t, ticks) == cycle(t, ticks.len()),
    decreases ticks.len(),
{
    if ticks.len() > 0 {
        let prev = ticks.drop_last();
        assert forall|i: int| 0 <= i < prev.len() implies (#[trigger] prev[i]).0.is_active() && prev[i].1.fire by {
            assert(prev[i] == ticks[i]);
        }
        lemma_fire_run_is_cycle(t, prev);
        assert(ticks[ticks.len() - 1] == ticks.last());
    }
}

} // verus!
