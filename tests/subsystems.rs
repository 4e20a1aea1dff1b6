use shooter_sim::collision::{check_for_collisions, find_first_hit};
use shooter_sim::control::{pause_game, play_intro, start_game, start_prompt, GameState, Input, PromptAction};
use shooter_sim::explosion::{animate_explosions, spawn_explosions, EXPLOSION_FRAMES};
use shooter_sim::formation::{
    build_formation, ease_enemy, ease_enemies, Enemy, SpawnState, ENEMIES_PER_GROUP, ENTRY_X, ENTRY_Y, GROUP_COUNT,
    RELEASE_TICKS, SLOT_SPACING,
};
use shooter_sim::geometry::{collide, Body};
use shooter_sim::player::{move_player, shoot_projectile, PLAYER_STEP};
use shooter_sim::projectile::{destroy_projectiles, move_projectiles, Projectile, PLAYER_SHOT_VY};
use shooter_sim::score::{death_signals, update_player_score};
use shooter_sim::timer::{Timer, TimerMode};
use shooter_sim::world::World;

fn playing() -> GameState {
    GameState { started: true, paused: false, intro: false, level: 1 }
}

fn keys(left: bool, right: bool, fire: bool) -> Input {
    Input { left, right, fire, confirm: false, pause: false }
}

fn body(x: i64, y: i64, width: u32, height: u32) -> Body {
    Body { x, y, width, height }
}

fn shot(x: i64, y: i64, vy: i32) -> Projectile {
    Projectile { body: body(x, y, 3600, 7200), vx: 0, vy }
}

fn enemy_at(x: i64, y: i64) -> Enemy {
    Enemy { body: body(x, y, 18000, 19200), group: 0, slot: 0, target_x: x, target_y: y, arrived: true }
}

#[test]
fn movement_sums_directions_of_active_ticks() {
    let mut player = body(0, -180000, 18000, 19200);
    let gs = playing();
    let paused = GameState { paused: true, ..gs };
    let runs = [
        (gs, keys(false, true, false)),
        (gs, keys(false, true, false)),
        (gs, keys(true, false, false)),
        (gs, keys(true, true, false)),
        (paused, keys(false, true, false)),
        (gs, keys(false, false, false)),
        (gs, keys(true, false, false)),
        (gs, keys(true, false, false)),
    ];
    for (state, input) in runs.iter() {
        move_player(&mut player, state, input);
    }
    assert_eq!(player.x, (1 + 1 - 1 + 0 + 0 - 1 - 1) * PLAYER_STEP);
    assert_eq!(player.y, -180000);
}

#[test]
fn no_keys_leave_player_in_place() {
    let mut player = body(123, -180000, 18000, 19200);
    for _ in 0..30 {
        move_player(&mut player, &playing(), &Input::idle());
    }
    assert_eq!(player.x, 123);
}

#[test]
fn player_does_not_move_during_intro_or_before_start() {
    let mut player = body(0, -180000, 18000, 19200);
    let intro = GameState { started: true, paused: false, intro: true, level: 1 };
    move_player(&mut player, &intro, &keys(false, true, false));
    move_player(&mut player, &GameState::new(), &keys(false, true, false));
    assert_eq!(player.x, 0);
}

#[test]
fn holding_fire_fires_once_per_cooldown() {
    let mut world = World::new();
    world.state = playing();
    let mut shots = 0;
    for _ in 0..100 {
        let report = world.step(&keys(false, false, true));
        if report.fire_sound {
            shots += 1;
        }
    }
    assert_eq!(shots, 100 / 18);
}

#[test]
fn firing_needs_active_game_and_fire_key() {
    let mut cooldown = Timer::new(2, TimerMode::Once);
    let mut projectiles: Vec<Projectile> = Vec::new();
    let player = body(5, -180000, 18000, 19200);
    let paused = GameState { paused: true, ..playing() };
    for _ in 0..10 {
        assert!(!shoot_projectile(&mut cooldown, &mut projectiles, &player, &paused, &keys(false, false, true)));
        assert!(!shoot_projectile(&mut cooldown, &mut projectiles, &player, &playing(), &Input::idle()));
    }
    assert_eq!(cooldown.elapsed, 0);
    assert!(!shoot_projectile(&mut cooldown, &mut projectiles, &player, &playing(), &keys(false, false, true)));
    assert!(shoot_projectile(&mut cooldown, &mut projectiles, &player, &playing(), &keys(false, false, true)));
    assert_eq!(projectiles.len(), 1);
    assert_eq!(projectiles[0].vy, PLAYER_SHOT_VY);
    assert_eq!(projectiles[0].body.x, 5);
}

#[test]
fn projectiles_move_by_vertical_velocity_only() {
    let mut ps = vec![Projectile { body: body(7, 100, 3600, 7200), vx: 50, vy: -30 }];
    move_projectiles(&mut ps);
    assert_eq!(ps[0].body.x, 7);
    assert_eq!(ps[0].body.y, 70);
}

#[test]
fn cleanup_removes_projectiles_past_either_edge() {
    let mut ps = vec![shot(0, 216000, 0), shot(1, 216001, 0), shot(2, -216000, 0), shot(3, -216001, 0), shot(4, 0, 0)];
    destroy_projectiles(&mut ps);
    let xs: Vec<i64> = ps.iter().map(|p| p.body.x).collect();
    assert_eq!(xs, vec![0, 2, 4]);
    destroy_projectiles(&mut ps);
    assert_eq!(ps.len(), 3);
}

#[test]
fn projectile_past_edge_is_gone_after_the_tick_even_when_it_hits() {
    let mut world = World::new();
    world.projectiles.push(shot(0, 300000, 0));
    world.projectiles.push(shot(900000, 300000, 0));
    world.enemies.push(enemy_at(0, 300000));
    let report = world.step(&Input::idle());
    assert!(report.death_sound);
    assert!(world.projectiles.is_empty());
    assert!(world.enemies.is_empty());
}

#[test]
fn touching_boxes_collide() {
    let a = body(0, 0, 10, 10);
    assert!(collide(&a, &body(10, 0, 10, 10)));
    assert!(collide(&a, &body(10, -10, 10, 10)));
    assert!(!collide(&a, &body(11, 0, 10, 10)));
    assert!(!collide(&a, &body(0, 11, 10, 10)));
    assert!(!collide(&a, &body(-11, 0, 10, 10)));
}

#[test]
fn separated_boxes_raise_no_death() {
    let mut ps = vec![shot(0, 0, 0)];
    let mut es = vec![enemy_at(0, 20000)];
    let kills = check_for_collisions(&mut ps, &mut es);
    assert!(kills.is_empty());
    assert_eq!(ps.len(), 1);
    assert_eq!(es.len(), 1);
}

#[test]
fn projectile_over_two_enemies_destroys_first_only() {
    let mut ps = vec![shot(0, 0, 0)];
    let mut es = vec![enemy_at(1000, 0), enemy_at(-1000, 0), enemy_at(50000, 0)];
    assert_eq!(find_first_hit(&ps[0].body, &es), Some(0));
    let kills = check_for_collisions(&mut ps, &mut es);
    assert_eq!(kills.len(), 1);
    assert_eq!(kills[0].body.x, 1000);
    assert!(ps.is_empty());
    assert_eq!(es.len(), 2);
}

#[test]
fn two_projectiles_on_one_enemy_kill_it_once() {
    let mut ps = vec![shot(0, 0, 0), shot(100, 0, 0)];
    let mut es = vec![enemy_at(0, 0)];
    let kills = check_for_collisions(&mut ps, &mut es);
    assert_eq!(kills.len(), 1);
    assert_eq!(ps.len(), 1);
    assert_eq!(ps[0].body.x, 100);
    assert!(es.is_empty());
}

#[test]
fn score_adds_each_tick_once() {
    let mut score = 0u64;
    for batch in [vec![100u64, 100], vec![], vec![100], vec![5, 7]] {
        score = update_player_score(score, &batch);
    }
    assert_eq!(score, 312);
    assert_eq!(death_signals(3), vec![100, 100, 100]);
}

#[test]
fn score_holds_at_maximum() {
    assert_eq!(update_player_score(u64::MAX - 50, &vec![100]), u64::MAX);
    assert_eq!(update_player_score(7, &Vec::new()), 7);
}

#[test]
fn game_starts_then_intro_leads_to_level_one() {
    let mut world = World::new();
    let report = world.step(&Input { confirm: true, ..Input::idle() });
    assert!(report.intro_music);
    assert!(world.state.started && world.state.intro);
    let mut ticks = 1;
    let mut level = report.level_started;
    while level.is_none() {
        let report = world.step(&keys(false, true, true));
        assert!(!report.fire_sound);
        level = report.level_started;
        ticks += 1;
    }
    assert_eq!(ticks, 360);
    assert_eq!(level, Some(1));
    assert!(!world.state.intro);
    assert_eq!(world.state.level, 1);
    assert_eq!(world.player.x, PLAYER_STEP);
    assert_eq!(world.spawn.groups.len(), GROUP_COUNT);
    assert_eq!(world.spawn.current_group, 0);
}

#[test]
fn start_and_pause_transitions() {
    let mut gs = GameState::new();
    assert!(!pause_game_toggles(&mut gs));
    assert!(!start_game(&mut gs, &Input::idle()));
    assert!(start_game(&mut gs, &keys(false, false, true)));
    assert!(gs.started);
    assert!(!start_game(&mut gs, &keys(false, false, true)));
    assert!(pause_game_toggles(&mut gs));
    assert!(gs.paused);
    assert!(pause_game_toggles(&mut gs));
    assert!(!gs.paused);
}

fn pause_game_toggles(gs: &mut GameState) -> bool {
    let before = gs.paused;
    pause_game(gs, &Input { pause: true, ..Input::idle() });
    before != gs.paused
}

#[test]
fn intro_timer_ends_intro_once() {
    let mut gs = GameState { started: true, ..GameState::new() };
    let mut timer = Timer::new(3, TimerMode::Once);
    assert_eq!(play_intro(&mut gs, &mut timer, true), None);
    assert_eq!(play_intro(&mut gs, &mut timer, false), None);
    assert_eq!(play_intro(&mut gs, &mut timer, false), Some(1));
    assert!(!gs.intro);
    assert_eq!(play_intro(&mut gs, &mut timer, false), None);
}

#[test]
fn start_prompt_shown_once_and_removed_once() {
    assert_eq!(start_prompt(false, false), PromptAction::Show);
    assert_eq!(start_prompt(false, true), PromptAction::Keep);
    assert_eq!(start_prompt(true, true), PromptAction::Remove);
    assert_eq!(start_prompt(true, false), PromptAction::Keep);
}

#[test]
fn formation_has_rows_of_slots() {
    let groups = build_formation();
    assert_eq!(groups.len(), 2);
    assert_eq!(groups[0].members.len(), 20);
    assert_eq!((groups[0].members[0].target_x, groups[0].members[0].target_y), (-240000, 12000));
    assert_eq!((groups[1].members[3].target_x, groups[1].members[3].target_y), (-240000 + 3 * 24000, 36000));
}

#[test]
fn groups_are_released_in_order_on_the_cooldown() {
    let mut spawn = SpawnState::new();
    let mut enemies: Vec<Enemy> = Vec::new();
    spawn.release_tick(&mut enemies);
    assert_eq!(spawn.release.elapsed, 0);
    spawn.start_level();
    let mut releases = Vec::new();
    for tick in 1..=(3 * RELEASE_TICKS) {
        let before = enemies.len();
        spawn.release_tick(&mut enemies);
        if enemies.len() != before {
            releases.push((tick, enemies.len() - before));
        }
    }
    assert_eq!(releases, vec![(RELEASE_TICKS, ENEMIES_PER_GROUP), (2 * RELEASE_TICKS, ENEMIES_PER_GROUP)]);
    assert_eq!(enemies.len(), GROUP_COUNT * ENEMIES_PER_GROUP);
    assert_eq!(spawn.current_group, GROUP_COUNT);
    for (i, e) in enemies.iter().enumerate() {
        assert_eq!(e.group, i / ENEMIES_PER_GROUP);
        assert_eq!(e.slot, i % ENEMIES_PER_GROUP);
        assert_eq!(e.body.x, ENTRY_X);
        assert_eq!(e.body.y, ENTRY_Y + (i % ENEMIES_PER_GROUP) as i64 * SLOT_SPACING);
        assert!(!e.arrived);
    }
}

#[test]
fn enemies_ease_toward_slot_and_settle() {
    let e = Enemy { body: body(0, 228000, 18000, 19200), group: 0, slot: 0, target_x: -240000, target_y: 12000, arrived: false };
    let next = ease_enemy(e);
    assert_eq!(next.body.x, -24000);
    assert_eq!(next.body.y, 228000 - 21600);
    assert!(!next.arrived);
    let near = Enemy { body: body(-239500, 12601, 18000, 19200), ..e };
    let placed = ease_enemy(near);
    assert_eq!((placed.body.x, placed.body.y), (-239550, 12541));
    assert!(!placed.arrived);
    let near = Enemy { body: body(-239500, 12600, 18000, 19200), ..e };
    let placed = ease_enemy(near);
    assert_eq!((placed.body.x, placed.body.y), (-240000, 12000));
    assert!(placed.arrived);
    assert_eq!(ease_enemy(placed), placed);
    let mut es = vec![e];
    let mut ticks = 0;
    while !es[0].arrived {
        ease_enemies(&mut es);
        ticks += 1;
        assert!(ticks < 200);
    }
    assert_eq!((es[0].body.x, es[0].body.y), (-240000, 12000));
}

#[test]
fn group_finishes_when_its_enemies_arrive() {
    let mut spawn = SpawnState::new();
    let mut enemies: Vec<Enemy> = Vec::new();
    spawn.start_level();
    for _ in 0..RELEASE_TICKS {
        spawn.release_tick(&mut enemies);
    }
    assert!(!spawn.group_finished(&enemies, 0));
    assert!(!spawn.group_finished(&enemies, 1));
    for _ in 0..200 {
        ease_enemies(&mut enemies);
    }
    assert!(spawn.group_finished(&enemies, 0));
    assert!(!spawn.group_finished(&enemies, 1));
}

#[test]
fn explosion_shows_each_frame_then_ends() {
    let mut xs = Vec::new();
    spawn_explosions(&mut xs, &vec![enemy_at(5, 6)]);
    assert_eq!((xs[0].x, xs[0].y, xs[0].frame), (5, 6, 0));
    let mut frames = vec![0];
    let mut ticks = 0;
    while !xs.is_empty() {
        animate_explosions(&mut xs);
        ticks += 1;
        if let Some(x) = xs.first() {
            if *frames.last().unwrap() != x.frame {
                frames.push(x.frame);
            }
        }
    }
    assert_eq!(frames, (0..EXPLOSION_FRAMES).collect::<Vec<_>>());
    assert_eq!(ticks, 6 * EXPLOSION_FRAMES);
}

#[test]
fn timers_complete_once_or_repeat() {
    let mut once = Timer::new(3, TimerMode::Once);
    once.tick(2);
    assert!(!once.finished());
    once.tick(2);
    assert!(once.finished() && once.just_finished);
    assert_eq!(once.elapsed, 3);
    once.tick(1);
    assert!(once.finished() && !once.just_finished);
    once.reset();
    assert!(!once.finished());
    let mut rep = Timer::new(3, TimerMode::Repeating);
    rep.tick(2);
    assert!(!rep.finished());
    rep.tick(2);
    assert!(rep.finished());
    assert_eq!(rep.elapsed, 1);
    rep.tick(1);
    assert!(!rep.finished());
}
