use vstd::prelude::*;
use crate::geometry::Body;

verus! {

/// Projectiles beyond this height, above or below, have left the screen
/// (360 pixels).
pub const SCREEN_EDGE_VERTICAL: i64 = 216000;

/// Bound on the height of a projectile before it moves, so that a move
/// cannot leave the range of `i64`.
pub const COORD_LIMIT: i64 = 0x4000_0000_0000_0000;

/// Size of a projectile's box.
pub const PROJECTILE_WIDTH: u32 = 3600;

pub const PROJECTILE_HEIGHT: u32 = 7200;

/// Velocity of a shot fired by the player: 400 pixels per second along the
/// diagonal up and to the right.
pub const PLAYER_SHOT_VX: i32 = 2828;

pub const PLAYER_SHOT_VY: i32 = 2828;

/// Velocity of a shot fired by an enemy: 400 pixels per second along the
/// diagonal down and to the right.
pub const ENEMY_SHOT_VX: i32 = 2828;

pub const ENEMY_SHOT_VY: i32 = -2828;

/// A shot in flight. Its velocity is the distance it covers per tick, in
/// sub-pixels; only the vertical part moves it.
#[derive(Clone, Copy, Debug, PartialEq, Eq, Structural)]
pub struct Projectile {
    pub body: Body,
    pub vx: i32,
    pub vy: i32,
}

/// A projectile that can take one more step.
pub open spec fn in_flight_range(p: Projectile) -> bool {
    -COORD_LIMIT <= p.body.y <= COORD_LIMIT
}

/// A projectile still on screen.
pub open spec fn on_screen(p: Projectile) -> bool {
    -SCREEN_EDGE_VERTICAL <= p.body.y <= SCREEN_EDGE_VERTICAL
}

/// `p` after one tick of flight.
pub open spec fn advanced(p: Projectile) -> Projectile {
    Projectile { body: Body { y: (p.body.y + p.vy) as i64, ..p.body }, ..p }
}

/// The projectiles of `ps` that are on screen, in order.
pub open spec fn kept_on_screen(ps: Seq<Projectile>) -> Seq<Projectile>
    decreases ps.len(),
{
    if ps.len() == 0 {
        ps
    } else if on_screen(ps.last()) {
        kept_on_screen(ps.drop_last()).push(ps.last())
    } else {
        kept_on_screen(ps.drop_last())
    }
}

/// Moves every projectile by its vertical velocity.
pub fn move_projectiles(projectiles: &mut Vec<Projectile>)
    requires
        forall|i: int| 0 <= i < old(projectiles)@.len() ==> in_flight_range(#[trigger] old(projectiles)@[i]),
    ensures
        final(projectiles)@ == old(projectiles)@.map_values(|p: Projectile| advanced(p)),
{
    let ghost ps0 = projectiles@;
    let mut i: usize = 0;
    while i < projectiles.len()
        invariant
            projectiles@.len() == ps0.len(),
            i <= ps0.len(),
            forall|j: int| 0 <= j < ps0.len() ==> in_flight_range(#[trigger] ps0[j]),
            forall|j: int| 0 <= j < i ==> #[trigger] projectiles@[j] == advanced(ps0[j]),
            forall|j: int| i <= j < ps0.len() ==> #[trigger] projectiles@[j] == ps0[j],
        decreases ps0.len() - i,
    {
        let p = projectiles[i];
        assert(in_flight_range(ps0[i as int]));
        let moved = Projectile { body: Body { y: p.body.y + p.vy as i64, ..p.body }, ..p };
        projectiles.set(i, moved);
        i += 1;
    }
    assert(projectiles@ =~= ps0.map_values(|p: Projectile| advanced(p)));
}

/// Removes the projectiles that have passed the top or bottom edge of the
/// screen. Removing is idempotent: a projectile already gone is not
/// touched.
pub fn destroy_projectiles(projectiles: &mut Vec<Projectile>)
    ensures
        final(projectiles)@ == kept_on_screen(old(projectiles)@),
        forall|i: int| 0 <= i < final(projectiles)@.len() ==> on_screen(#[trigger] final(projectiles)@[i]),
{
    let ghost ps0 = projectiles@;
    let mut kept: Vec<Projectile> = Vec::new();
    let mut i: usize = 0;
    while i < projectiles.len()
        invariant
            projectiles@ == ps0,
            i <= ps0.len(),
            kept@ == kept_on_screen(ps0.take(i as int)),
            forall|j: int| 0 <= j < kept@.len() ==> on_screen(#[trigger] kept@[j]),
        decreases ps0.len() - i,
    {
        let p = projectiles[i];
        proof {
            assert(ps0.take(i + 1).drop_last() =~= ps0.take(i as int));
            assert(ps0.take(i + 1).last() == p);
        }
        if -SCREEN_EDGE_VERTICAL <= p.body.y && p.body.y <= SCREEN_EDGE_VERTICAL {
            kept.push(p);
        }
        i += 1;
    }
    assert(ps0.take(ps0.len() as int) =~= ps0);
    *projectiles = kept;
}

} // verus!
