use vstd::prelude::*;
use crate::geometry::{abs, Body};
use crate::timer::{cycle_step, Timer, TimerMode};
use vstd::arithmetic::div_mod::{lemma_fundamental_div_mod, lemma_fundamental_div_mod_converse};

verus! {

/// Groups built for each level.
pub const GROUP_COUNT: usize = 2;

/// Enemies in each group.
pub const ENEMIES_PER_GROUP: usize = 20;

/// Ticks between the releases of two groups (three seconds).
pub const RELEASE_TICKS: u32 = 180;

/// Where a released group enters, above the top edge of the screen.
pub const ENTRY_X: i64 = 0;

pub const ENTRY_Y: i64 = 228000;

/// Distance between neighbouring slots of the formation, and between the
/// rows of two groups (forty pixels).
pub const SLOT_SPACING: i64 = 24000;

/// Centre of the first slot of the first group's row.
pub const FORMATION_X: i64 = -240000;

pub const FORMATION_Y: i64 = 12000;

/// Size of an enemy's box.
pub const ENEMY_WIDTH: u32 = 18000;

pub const ENEMY_HEIGHT: u32 = 19200;

/// An enemy that has come this close to its slot on both axes is placed on
/// it (one pixel).
pub const ARRIVAL_TOLERANCE: i64 = 600;

#[derive(Clone, Copy, Debug, PartialEq, Eq, Structural)]
pub enum EnemyKind {
    GreenBug,
}

/// One member of a group: its kind and its slot in the formation.
#[derive(Clone, Copy, Debug, PartialEq, Eq, Structural)]
pub struct EnemyData {
    pub kind: EnemyKind,
    pub target_x: i64,
    pub target_y: i64,
}

/// The members of a group, in slot order.
pub struct EnemyGroup {
    pub members: Vec<EnemyData>,
}

/// An enemy on screen, with its group, its slot within the group and the
/// position of that slot. `arrived` is set once it has reached the slot.
#[derive(Clone, Copy, Debug, PartialEq, Eq, Structural)]
pub struct Enemy {
    pub body: Body,
    pub group: usize,
    pub slot: usize,
    pub target_x: i64,
    pub target_y: i64,
    pub arrived: bool,
}

/// The members of group `g`: one row of slots, `SLOT_SPACING` apart, one
/// row higher for each group.
pub open spec fn formation_group(g: int) -> Seq<EnemyData> {
    Seq::new(
        ENEMIES_PER_GROUP as nat,
        |slot: int|
            EnemyData {
                kind: EnemyKind::GreenBug,
                target_x: (FORMATION_X + slot * SLOT_SPACING) as i64,
                target_y: (FORMATION_Y + g * SLOT_SPACING) as i64,
            },
    )
}

/// The enemies that enter when group `g` with `members` is released: all at
/// the entry point, each slot one `SLOT_SPACING` further up.
pub open spec fn entering(g: int, members: Seq<EnemyData>) -> Seq<Enemy> {
    Seq::new(
        members.len(),
        |slot: int|
            Enemy {
                body: Body {
                    x: ENTRY_X,
                    y: (ENTRY_Y + slot * SLOT_SPACING) as i64,
                    width: ENEMY_WIDTH,
                    height: ENEMY_HEIGHT,
                },
                group: g as usize,
                slot: slot as usize,
                target_x: members[slot].target_x,
                target_y: members[slot].target_y,
                arrived: false,
            },
    )
}

/// One tick of the release schedule with `count` groups, `current` of them
/// released: the number released after the tick, the release timer, and
/// whether group `current` was released on it.
pub open spec fn release_step(current: int, count: int, t: Timer) -> (int, Timer, bool) {
    if current < count {
        let s = cycle_step(t);
        (if s.1 {
            current + 1
        } else {
            current
        }, s.0, s.1)
    } else {
        (current, t, false)
    }
}

/// One tenth of `d`, rounded toward zero.
pub open spec fn ease_step(d: int) -> int {
    if d >= 0 {
        d / 10
    } else {
        -((-d) / 10)
    }
}

/// Whether `e` is within the arrival tolerance of its slot.
pub open spec fn near_slot(e: Enemy) -> bool {
    &&& abs(e.target_x - e.body.x) <= ARRIVAL_TOLERANCE
    &&& abs(e.target_y - e.body.y) <= ARRIVAL_TOLERANCE
}

/// `e` after one tick of easing: an enemy still under way covers a tenth of
/// the remaining distance on each axis, and is placed on its slot once near
/// it.
pub open spec fn eased(e: Enemy) -> Enemy {
    if e.arrived {
        e
    } else if near_slot(e) {
        Enemy { body: Body { x: e.target_x, y: e.target_y, ..e.body }, arrived: true, ..e }
    } else {
        Enemy {
            body: Body {
                x: (e.body.x + ease_step(e.target_x - e.body.x)) as i64,
                y: (e.body.y + ease_step(e.target_y - e.body.y)) as i64,
                ..e.body
            },
            ..e
        }
    }
}

/// Group `g` has been released and every one of its enemies still on
/// screen has reached its slot.
pub open spec fn settled(current: int, es: Seq<Enemy>, g: int) -> bool {
    &&& g < current
    &&& forall|i: int| 0 <= i < es.len() && #[trigger] es[i].group == g ==> es[i].arrived
}

/// `n` ticks of the release schedule of `groups`, from `current` released
/// and release timer `t`: the number released after them, the timer, and
/// the enemies that entered, in order.
pub open spec fn release_run(current: int, groups: Seq<Seq<EnemyData>>, t: Timer, n: nat) -> (int, Timer, Seq<Enemy>)
    decreases n,
{
    if n == 0 {
        (current, t, Seq::empty())
    } else {
        let prev = release_run(current, groups, t, (n - 1) as nat);
        let s = release_step(prev.0, groups.len() as int, prev.1);
        (s.0, s.1, if s.2 {
            prev.2 + entering(prev.0, groups[prev.0])
        } else {
            prev.2
        })
    }
}

/// The enemies of the first `k` groups of `groups`, group after group.
pub open spec fn released_upto(groups: Seq<Seq<EnemyData>>, k: int) -> Seq<Enemy>
    decreases k,
{
    if k <= 0 {
        Seq::empty()
    } else {
        released_upto(groups, k - 1) + entering(k - 1, groups[k - 1])
    }
}

/// From a level start, with a release timer of `d` ticks, group `k` is
/// released on tick `(k + 1) * d` and no group after the last: after `n`
/// ticks `min(n / d, count)` groups are out, and the enemies that entered
/// are theirs, group after group.
pub proof fn lemma_release_schedule(groups: Seq<Seq<EnemyData>>, t: Timer, n: nat)
    requires
        t.wf(),
        t.mode == TimerMode::Once,
        t.elapsed == 0,
        !t.just_finished,
    ensures
        release_run(0, groups, t, n).0 == if n / (t.duration as nat) < groups.len() {
            (n / (t.duration as nat)) as int
        } else {
            groups.len() as int
        },
        release_run(0, groups, t, n).2 == released_upto(groups, release_run(0, groups, t, n).0),
        n <= groups.len() * t.duration ==> release_run(0, groups, t, n).1 == (Timer {
            elapsed: (n % (t.duration as nat)) as u32,
            ..t
        }),
        n >= groups.len() * t.duration ==> release_run(0, groups, t, n).1 == t,
    decreases n,
{
    let d = t.duration as int;
    let count = groups.len();
    if n == 0 {
        assert(0 * d == 0) by (nonlinear_arith);
        lemma_fundamental_div_mod_converse(0, d, 0, 0);
    } else {
        let m = (n - 1) as nat;
        lemma_release_schedule(groups, t, m);
        lemma_fundamental_div_mod(m as int, d);
        let q = m as int / d;
        let r = m as int % d;
        if m < count * d {
            assert(q < count) by (nonlinear_arith)
                requires
                    m == q * d + r,
                    0 <= r,
                    m < count * d,
                    d > 0,
            ;
            if r + 1 < d {
                lemma_fundamental_div_mod_converse(n as int, d, q, r + 1);
                assert(n < count * d) by (nonlinear_arith)
                    requires
                        n == q * d + r + 1,
                        r + 1 < d,
                        q < count,
                        d > 0,
                ;
            } else {
                assert(n == (q + 1) * d) by (nonlinear_arith)
                    requires
                        m == q * d + r,
                        r + 1 == d,
                        n == m + 1,
                ;
                lemma_fundamental_div_mod_converse(n as int, d, q + 1, 0);
                assert(n <= count * d) by (nonlinear_arith)
                    requires
                        n == (q + 1) * d,
                        q < count,
                        d > 0,
                ;
            }
        } else {
            assert(q >= count) by (nonlinear_arith)
                requires
                    m == q * d + r,
                    r < d,
                    m >= count * d,
                    d > 0,
            ;
            lemma_fundamental_div_mod(n as int, d);
            assert(n as int / d >= count) by (nonlinear_arith)
                requires
                    n == (n as int / d) * d + n as int % d,
                    0 <= n as int % d < d,
                    n > count * d,
                    d > 0,
            ;
        }
    }
}

proof fn lemma_released_count(groups: Seq<Seq<EnemyData>>, k: int)
    requires
        0 <= k <= groups.len(),
        forall|g: int| 0 <= g < groups.len() ==> (#[trigger] groups[g]).len() == ENEMIES_PER_GROUP,
    ensures
        released_upto(groups, k).len() == k * ENEMIES_PER_GROUP,
    decreases k,
{
    if k > 0 {
        lemma_released_count(groups, k - 1);
    }
}

/// Over a whole run from a level start, the groups of the level release
/// exactly `GROUP_COUNT * ENEMIES_PER_GROUP` enemies, group after group,
/// and no more however long the run goes on.
pub proof fn lemma_level_release_total(t: Timer, n: nat)
    requires
        t.wf(),
        t.mode == TimerMode::Once,
        t.elapsed == 0,
        !t.just_finished,
        n >= GROUP_COUNT * t.duration,
    ensures
        ({
            let groups = Seq::new(GROUP_COUNT as nat, |g: int| formation_group(g));
            &&& release_run(0, groups, t, n).0 == GROUP_COUNT
            &&& release_run(0, groups, t, n).2 == released_upto(groups, GROUP_COUNT as int)
            &&& release_run(0, groups, t, n).2.len() == GROUP_COUNT * ENEMIES_PER_GROUP
        }),
{
    let groups = Seq::new(GROUP_COUNT as nat, |g: int| formation_group(g));
    let d = t.duration as int;
    lemma_release_schedule(groups, t, n);
    lemma_fundamental_div_mod(n as int, d);
    assert(n as int / d >= GROUP_COUNT) by (nonlinear_arith)
        requires
            n == (n as int / d) * d + n as int % d,
            0 <= n as int % d < d,
            n >= GROUP_COUNT * d,
            d > 0,
    ;
    lemma_released_count(groups, GROUP_COUNT as int);
}

/// How far `e` is from its slot, summed over both axes.
pub open spec fn slot_distance(e: Enemy) -> int {
    abs(e.target_x - e.body.x) + abs(e.target_y - e.body.y)
}

proof fn lemma_ease_step(d: int)
    ensures
        d >= 0 ==> 0 <= ease_step(d) <= d,
        d < 0 ==> d <= ease_step(d) <= 0,
        abs(d - ease_step(d)) <= abs(d),
        abs(d) > ARRIVAL_TOLERANCE ==> abs(d - ease_step(d)) <= abs(d) - ARRIVAL_TOLERANCE / 10,
{
    if d >= 0 {
        assert(0 <= d / 10 <= d) by (nonlinear_arith)
            requires
                d >= 0,
        ;
        assert(d > 600 ==> d / 10 >= 60) by (nonlinear_arith)
            requires
                d >= 0,
        ;
    } else {
        assert(0 <= (-d) / 10 <= -d) by (nonlinear_arith)
            requires
                d < 0,
        ;
        assert(-d > 600 ==> (-d) / 10 >= 60) by (nonlinear_arith)
            requires
                d < 0,
        ;
    }
}

/// Easing never carries an enemy past its slot, and an enemy still under
/// way comes at least a tenth of the arrival tolerance closer on every
/// tick until it is near enough to be placed on the slot: every enemy
/// reaches its slot.
pub proof fn lemma_easing_progress(e: Enemy)
    ensures
        eased(e).target_x == e.target_x && eased(e).target_y == e.target_y,
        slot_distance(eased(e)) <= slot_distance(e),
        !e.arrived && !near_slot(e) ==> slot_distance(eased(e)) <= slot_distance(e) - ARRIVAL_TOLERANCE / 10,
        !e.arrived && near_slot(e) ==> eased(e).arrived && slot_distance(eased(e)) == 0,
{
    let dx = e.target_x - e.body.x;
    let dy = e.target_y - e.body.y;
    lemma_ease_step(dx);
    lemma_ease_step(dy);
    if !e.arrived && !near_slot(e) {
        assert(eased(e).body.x == e.body.x + ease_step(dx));
        assert(eased(e).body.y == e.body.y + ease_step(dy));
    }
}

/// Builds the groups of a level, in release order.
pub fn build_formation() -> (groups: Vec<EnemyGroup>)
    ensures
        groups@.len() == GROUP_COUNT,
        forall|g: int| 0 <= g < GROUP_COUNT ==> #[trigger] groups@[g].members@ == formation_group(g),
{
    let mut groups: Vec<EnemyGroup> = Vec::new();
    let mut g: usize = 0;
    while g < GROUP_COUNT
        invariant
            g <= GROUP_COUNT,
            groups@.len() == g,
            forall|h: int| 0 <= h < g ==> #[trigger] groups@[h].members@ == formation_group(h),
        decreases GROUP_COUNT - g,
    {
        let mut members: Vec<EnemyData> = Vec::new();
        let mut slot: usize = 0;
        while slot < ENEMIES_PER_GROUP
            invariant
                g < GROUP_COUNT,
                slot <= ENEMIES_PER_GROUP,
                members@.len() == slot,
                forall|s: int| 0 <= s < slot ==> #[trigger] members@[s] == formation_group(g as int)[s],
            decreases ENEMIES_PER_GROUP - slot,
        {
            members.push(
                EnemyData {
                    kind: EnemyKind::GreenBug,
                    target_x: FORMATION_X + slot as i64 * SLOT_SPACING,
                    target_y: FORMATION_Y + g as i64 * SLOT_SPACING,
                },
            );
            slot += 1;
        }
        assert(members@ =~= formation_group(g as int));
        groups.push(EnemyGroup { members });
        g += 1;
    }
    groups
}

/// The enemy `e` after one tick of easing toward its slot.
pub fn ease_enemy(e: Enemy) -> (r: Enemy)
    ensures
        r == eased(e),
{
    if e.arrived {
        return e;
    }
    let dx: i128 = e.target_x as i128 - e.body.x as i128;
    let dy: i128 = e.target_y as i128 - e.body.y as i128;
    let adx: i128 = if dx < 0 { -dx } else { dx };
    let ady: i128 = if dy < 0 { -dy } else { dy };
    if adx <= ARRIVAL_TOLERANCE as i128 && ady <= ARRIVAL_TOLERANCE as i128 {
        Enemy { body: Body { x: e.target_x, y: e.target_y, ..e.body }, arrived: true, ..e }
    } else {
        let sx: i128 = if dx >= 0 { dx / 10 } else { -((-dx) / 10) };
        let sy: i128 = if dy >= 0 { dy / 10 } else { -((-dy) / 10) };
        let x = (e.body.x as i128 + sx) as i64;
        let y = (e.body.y as i128 + sy) as i64;
        Enemy { body: Body { x, y, ..e.body }, ..e }
    }
}

/// Moves every enemy one tick closer to its slot.
pub fn ease_enemies(enemies: &mut Vec<Enemy>)
    ensures
        final(enemies)@ == old(enemies)@.map_values(|e: Enemy| eased(e)),
{
    let ghost es0 = enemies@;
    let mut i: usize = 0;
    while i < enemies.len()
        invariant
            enemies@.len() == es0.len(),
            i <= es0.len(),
            forall|j: int| 0 <= j < i ==> #[trigger] enemies@[j] == eased(es0[j]),
            forall|j: int| i <= j < es0.len() ==> #[trigger] enemies@[j] == es0[j],
        decreases es0.len() - i,
    {
        let e = ease_enemy(enemies[i]);
        enemies.set(i, e);
        i += 1;
    }
    assert(enemies@ =~= es0.map_values(|e: Enemy| eased(e)));
}

/// The release schedule of the enemy groups of the current level.
pub struct SpawnState {
    pub current_group: usize,
    pub groups: Vec<EnemyGroup>,
    pub release: Timer,
}

impl SpawnState {
    pub open spec fn wf(&self) -> bool {
        &&& self.release.wf()
        &&& self.current_group <= self.groups@.len()
        &&& forall|g: int|
            0 <= g < self.groups@.len() ==> #[trigger] self.groups@[g].members@.len() <= ENEMIES_PER_GROUP
    }

    /// No groups yet, and a release timer that has not run.
    pub fn new() -> (r: SpawnState)
        ensures
            r.wf(),
            r.current_group == 0,
            r.groups@.len() == 0,
            r.release == (Timer { duration: RELEASE_TICKS, elapsed: 0, mode: TimerMode::Once, just_finished: false }),
    {
        SpawnState { current_group: 0, groups: Vec::new(), release: Timer::new(RELEASE_TICKS, TimerMode::Once) }
    }

    /// Builds the groups of a new level and starts their release schedule
    /// over.
    pub fn start_level(&mut self)
        requires
            old(self).wf(),
        ensures
            final(self).wf(),
            final(self).current_group == 0,
            final(self).groups@.len() == GROUP_COUNT,
            forall|g: int| 0 <= g < GROUP_COUNT ==> #[trigger] final(self).groups@[g].members@ == formation_group(g),
            final(self).release == old(self).release.restarted(),
    {
        self.groups = build_formation();
        self.current_group = 0;
        self.release.reset();
    }

    /// Ticks the release timer while groups remain; when it completes, the
    /// next group enters and the timer starts over.
    pub fn release_tick(&mut self, enemies: &mut Vec<Enemy>)
        requires
            old(self).wf(),
        ensures
            final(self).wf(),
            final(self).groups@ == old(self).groups@,
            ({
                let s = release_step(old(self).current_group as int, old(self).groups@.len() as int, old(self).release);
                &&& final(self).current_group == s.0
                &&& final(self).release == s.1
                &&& final(enemies)@ == if s.2 {
                    old(enemies)@ + entering(
                        old(self).current_group as int,
                        old(self).groups@[old(self).current_group as int].members@,
                    )
                } else {
                    old(enemies)@
                }
            }),
    {
        if self.current_group >= self.groups.len() {
            return;
        }
        self.release.tick(1);
        if self.release.finished() {
            let g = self.current_group;
            let members = &self.groups[g].members;
            let ghost es0 = enemies@;
            let mut slot: usize = 0;
            while slot < members.len()
                invariant
                    g < self.groups@.len(),
                    members@ == self.groups@[g as int].members@,
                    members@.len() <= ENEMIES_PER_GROUP,
                    slot <= members@.len(),
                    enemies@ == es0 + entering(g as int, members@).take(slot as int),
                decreases members@.len() - slot,
            {
                let m = members[slot];
                enemies.push(
                    Enemy {
                        body: Body {
                            x: ENTRY_X,
                            y: ENTRY_Y + slot as i64 * SLOT_SPACING,
                            width: ENEMY_WIDTH,
                            height: ENEMY_HEIGHT,
                        },
                        group: g,
                        slot,
                        target_x: m.target_x,
                        target_y: m.target_y,
                        arrived: false,
                    },
                );
                proof {
                    assert(entering(g as int, members@).take(slot + 1) =~= entering(g as int, members@).take(
                        slot as int,
                    ).push(entering(g as int, members@)[slot as int]));
                }
                slot += 1;
            }
            assert(entering(g as int, members@).take(members@.len() as int) =~= entering(g as int, members@));
            self.release.reset();
            self.current_group = g + 1;
        }
    }

    /// Whether group `g` has been released and all of its enemies still on
    /// screen have reached their slots.
    pub fn group_finished(&self, enemies: &Vec<Enemy>, g: usize) -> (r: bool)
        ensures
            r == settled(self.current_group as int, enemies@, g as int),
    {
        if g >= self.current_group {
            return false;
        }
        let mut i: usize = 0;
        while i < enemies.len()
            invariant
                i <= enemies@.len(),
                forall|j: int| 0 <= j < i && #[trigger] enemies@[j].group == g ==> enemies@[j].arrived,
            decreases enemies@.len() - i,
        {
            if enemies[i].group == g && !enemies[i].arrived {
                return false;
            }
            i += 1;
        }
        true
    }
}

} // verus!
