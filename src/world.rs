use vstd::prelude::*;
use crate::collision::{check_for_collisions, resolve};
use crate::control::{after_intro, after_pause, after_start, pause_game, play_intro, start_game, GameState, Input, INTRO_TICKS};
use crate::explosion::{animate, animate_explosions, explosion_of, spawn_explosions, Explosion};
use crate::formation::{
    eased,
    ease_enemies,
    entering,
    formation_group,
    release_step,
    Enemy,
    SpawnState,
    GROUP_COUNT,
};
use crate::geometry::Body;
use crate::player::{
    can_move,
    fire_step,
    move_player,
    moved_player,
    player_shot,
    shoot_projectile,
    FIRE_COOLDOWN_TICKS,
    PLAYER_HEIGHT,
    PLAYER_START_X,
    PLAYER_START_Y,
    PLAYER_STEP,
    PLAYER_WIDTH,
};
use crate::projectile::{
    advanced,
    destroy_projectiles,
    in_flight_range,
    kept_on_screen,
    move_projectiles,
    on_screen,
    Projectile,
    COORD_LIMIT,
};
use crate::score::{credited, death_signals, update_player_score, DEATH_POINTS};
use crate::timer::{Timer, TimerMode};

verus! {

/// What a tick asks of the presentation around the simulation.
#[derive(Clone, Copy, Debug, PartialEq, Eq, Structural)]
pub struct TickReport {
    /// A shot left on this tick: play the firing sound, once.
    pub fire_sound: bool,
    /// Enemies were destroyed on this tick: play the death sound, once,
    /// and show the new score.
    pub death_sound: bool,
    /// The game started on this tick: play the intro music.
    pub intro_music: bool,
    /// The level that started on this tick.
    pub level_started: Option<usize>,
}

/// Everything the simulation holds: the player, the tables of projectiles,
/// enemies and explosions, the game state, the score, and the timers.
pub struct World {
    pub player: Body,
    pub projectiles: Vec<Projectile>,
    pub enemies: Vec<Enemy>,
    pub explosions: Vec<Explosion>,
    pub state: GameState,
    pub score: u64,
    pub fire_cooldown: Timer,
    pub intro_timer: Timer,
    pub spawn: SpawnState,
}

impl World {
    pub open spec fn wf(&self) -> bool {
        &&& self.fire_cooldown.wf()
        &&& self.intro_timer.wf()
        &&& self.spawn.wf()
        &&& -COORD_LIMIT <= self.player.y <= COORD_LIMIT
        &&& forall|i: int| 0 <= i < self.projectiles@.len() ==> in_flight_range(#[trigger] self.projectiles@[i])
        &&& forall|i: int| 0 <= i < self.explosions@.len() ==> (#[trigger] self.explosions@[i]).timer.wf()
    }

    /// A game that has not started: the player at its starting position,
    /// nothing else on screen, no score.
    pub fn new() -> (w: World)
        ensures
            w.wf(),
            w.player == (Body { x: PLAYER_START_X, y: PLAYER_START_Y, width: PLAYER_WIDTH, height: PLAYER_HEIGHT }),
            w.projectiles@.len() == 0,
            w.enemies@.len() == 0,
            w.explosions@.len() == 0,
            w.state == (GameState { started: false, paused: false, intro: false, level: 1 }),
            w.score == 0,
            w.fire_cooldown == (Timer {
                duration: FIRE_COOLDOWN_TICKS,
                elapsed: 0,
                mode: TimerMode::Once,
                just_finished: false,
            }),
            w.intro_timer == (Timer { duration: INTRO_TICKS, elapsed: 0, mode: TimerMode::Once, just_finished: false }),
            w.spawn.current_group == 0,
            w.spawn.groups@.len() == 0,
    {
        World {
            player: Body { x: PLAYER_START_X, y: PLAYER_START_Y, width: PLAYER_WIDTH, height: PLAYER_HEIGHT },
            projectiles: Vec::new(),
            enemies: Vec::new(),
            explosions: Vec::new(),
            state: GameState::new(),
            score: 0,
            fire_cooldown: Timer::new(FIRE_COOLDOWN_TICKS, TimerMode::Once),
            intro_timer: Timer::new(INTRO_TICKS, TimerMode::Once),
            spawn: SpawnState::new(),
        }
    }

    /// Whether the player can take one more step without leaving the range
    /// of `i64`.
    pub fn player_can_move(&self) -> (r: bool)
        ensures
            r == can_move(self.player),
    {
        i64::MIN + PLAYER_STEP <= self.player.x && self.player.x <= i64::MAX - PLAYER_STEP
    }

    /// Runs one tick: the game-state machine, then the player's movement
    /// and firing, the flight of the projectiles, the explosions, the
    /// collision pass, the removal of projectiles that left the screen, the
    /// score, and the enemy formation.
    pub fn step(&mut self, input: &Input) -> (report: TickReport)
        requires
            old(self).wf(),
            can_move(old(self).player),
        ensures
            final(self).wf(),
            forall|i: int| 0 <= i < final(self).projectiles@.len() ==> on_screen(#[trigger] final(self).projectiles@[i]),
            ({
                let w = old(self);
                let st = after_start(w.state, *input);
                let it = after_intro(after_pause(st.0, *input), w.intro_timer, st.1);
                let level_start = it.2 is Some;
                let gs = if level_start {
                    GameState { level: it.2->0, ..it.0 }
                } else {
                    it.0
                };
                let player = moved_player(w.player, gs, *input);
                let f = fire_step(w.fire_cooldown, gs, *input);
                let shots = if f.1 {
                    w.projectiles@.push(player_shot(player))
                } else {
                    w.projectiles@
                };
                let col = resolve(shots.map_values(|p: Projectile| advanced(p)), w.enemies@);
                let current = if level_start {
                    0int
                } else {
                    w.spawn.current_group as int
                };
                let count = if level_start {
                    GROUP_COUNT as int
                } else {
                    w.spawn.groups@.len() as int
                };
                let release = if level_start {
                    w.spawn.release.restarted()
                } else {
                    w.spawn.release
                };
                let r = release_step(current, count, release);
                &&& final(self).state == gs
                &&& final(self).intro_timer == it.1
                &&& final(self).player == player
                &&& final(self).fire_cooldown == f.0
                &&& final(self).projectiles@ == kept_on_screen(col.0)
                &&& final(self).explosions@ == animate(w.explosions@) + col.2.map_values(|e: Enemy| explosion_of(e))
                &&& final(self).score == credited(w.score as int, Seq::new(col.2.len(), |i: int| DEATH_POINTS))
                &&& level_start ==> final(self).spawn.groups@.len() == GROUP_COUNT
                &&& level_start ==> forall|g: int|
                    0 <= g < GROUP_COUNT ==> #[trigger] final(self).spawn.groups@[g].members@ == formation_group(g)
                &&& !level_start ==> final(self).spawn.groups@ == w.spawn.groups@
                &&& final(self).spawn.current_group == r.0
                &&& final(self).spawn.release == r.1
                &&& final(self).enemies@ == col.1.map_values(|e: Enemy| eased(e)) + if r.2 {
                    entering(current, final(self).spawn.groups@[current].members@)
                } else {
                    Seq::<Enemy>::empty()
                }
                &&& report == (TickReport {
                    fire_sound: f.1,
                    death_sound: col.2.len() > 0,
                    intro_music: st.1,
                    level_started: it.2,
                })
            }),
    {
        let game_start = start_game(&mut self.state, input);
        pause_game(&mut self.state, input);
        let level_start = play_intro(&mut self.state, &mut self.intro_timer, game_start);
        if let Some(n) = level_start {
            self.state.level = n;
            self.spawn.start_level();
        }
        move_player(&mut self.player, &self.state, input);
        let fired = shoot_projectile(&mut self.fire_cooldown, &mut self.projectiles, &self.player, &self.state, input);
        move_projectiles(&mut self.projectiles);
        animate_explosions(&mut self.explosions);
        let kills = check_for_collisions(&mut self.projectiles, &mut self.enemies);
        spawn_explosions(&mut self.explosions, &kills);
        destroy_projectiles(&mut self.projectiles);
        let deaths = death_signals(kills.len());
        self.score = update_player_score(self.score, &deaths);
        ease_enemies(&mut self.enemies);
        self.spawn.release_tick(&mut self.enemies);
        TickReport { fire_sound: fired, death_sound: kills.len() > 0, intro_music: game_start, level_started: level_start }
    }
}

} // verus!
