use star_chase::audio::AudioCue;
use star_chase::enemy::{confine_enemy, Enemy, EnemyTimer};
use star_chase::geometry::{Direction, Position};
use star_chase::player::{
    enemy_hit_player, player_hit_star, player_run, GameOver, KeyInput, Kill, Player,
};
use star_chase::server::{AppState, FrameInput, Game, SimulationState};
use star_chase::star::{confine_star, spawn_star_over_timer, Star, StarTimer};
use star_chase::timer::SpawnTimer;

const W: i64 = 800_000_000;
const H: i64 = 600_000_000;

fn no_keys() -> KeyInput {
    KeyInput { left: false, right: false, up: false, down: false }
}

fn quiet_frame(dt_ms: u64) -> FrameInput {
    FrameInput {
        dt_ms,
        width: W,
        height: H,
        keys: no_keys(),
        g_just_pressed: false,
        m_just_pressed: false,
        space_just_pressed: false,
    }
}

#[test]
fn player_run_follows_held_key() {
    let mut p = Player { position: Position { x: 0, y: 0 } };
    let keys = KeyInput { left: false, right: true, up: false, down: false };
    player_run(&mut p, &keys, 16);
    assert_eq!(p.position.x, 1000 * 500 * 16);
    assert_eq!(p.position.y, 0);
}

#[test]
fn player_run_last_evaluated_key_wins() {
    let mut p = Player { position: Position { x: 0, y: 0 } };
    let keys = KeyInput { left: true, right: false, up: false, down: true };
    player_run(&mut p, &keys, 16);
    // down is evaluated after left and overwrites it: no diagonal blend
    assert_eq!(p.position.x, 0);
    assert_eq!(p.position.y, -(1000 * 500 * 16));
}

#[test]
fn star_confined_at_right_bound_flips_direction() {
    // a star outside the right bound: clamped to the bound, sign flipped
    let mut stars = vec![Star {
        position: Position { x: 850_000_000, y: 300_000_000 },
        direction: Direction { x: 500, y: 200 },
    }];
    let mut audio: Vec<AudioCue> = Vec::new();
    confine_star(&mut stars, W, H, &mut audio);
    assert_eq!(stars[0].position.x, 768_000_000);
    assert_eq!(stars[0].position.y, 300_000_000);
    assert_eq!(stars[0].direction.x, -500);
    assert_eq!(stars[0].direction.y, 200);
    // the star's bounce cue is always the first pluck
    assert_eq!(audio.len(), 1);
    assert_eq!(audio[0], AudioCue::Pluck001);
}

#[test]
fn star_inside_bounds_is_untouched() {
    let mut stars = vec![Star {
        position: Position { x: 400_000_000, y: 300_000_000 },
        direction: Direction { x: 500, y: 200 },
    }];
    let mut audio: Vec<AudioCue> = Vec::new();
    confine_star(&mut stars, W, H, &mut audio);
    assert_eq!(stars[0].position.x, 400_000_000);
    assert_eq!(stars[0].direction.x, 500);
    assert!(audio.is_empty());
}

#[test]
fn enemy_confined_on_both_axes_bounces_once() {
    let mut enemies = vec![Enemy {
        position: Position { x: -10_000_000, y: 700_000_000 },
        direction: Direction { x: -800, y: 600 },
    }];
    let mut audio: Vec<AudioCue> = Vec::new();
    confine_enemy(&mut enemies, W, H, &mut audio);
    assert_eq!(enemies[0].position.x, 32_000_000);
    assert_eq!(enemies[0].position.y, 568_000_000);
    assert_eq!(enemies[0].direction.x, 800);
    assert_eq!(enemies[0].direction.y, -600);
    assert_eq!(audio.len(), 1);
    assert!(matches!(audio[0], AudioCue::Pluck001 | AudioCue::Pluck002));
}

#[test]
fn collecting_a_star_adds_exactly_one() {
    let p = Player { position: Position { x: 400_000_000, y: 300_000_000 } };
    let near = Star {
        position: Position { x: 410_000_000, y: 300_000_000 },
        direction: Direction { x: 1, y: 2 },
    };
    let far = Star {
        position: Position { x: 100_000_000, y: 100_000_000 },
        direction: Direction { x: 3, y: 4 },
    };
    let mut stars = vec![near, far];
    let mut kill = Kill { value: 41 };
    let mut audio: Vec<AudioCue> = Vec::new();
    player_hit_star(&p, &mut stars, &mut kill, &mut audio);
    assert_eq!(kill.value, 42);
    assert_eq!(stars.len(), 1);
    assert_eq!(stars[0].position.x, 100_000_000);
    assert_eq!(audio, vec![AudioCue::LaserLarge]);
}

#[test]
fn enemy_overlap_signals_game_over_with_current_score() {
    let p = Player { position: Position { x: 400_000_000, y: 300_000_000 } };
    // centre distance 10 units, combined radius 64 units: overlap
    let enemies = vec![Enemy {
        position: Position { x: 410_000_000, y: 300_000_000 },
        direction: Direction { x: 0, y: 0 },
    }];
    let score = Kill { value: 7 };
    let mut events: Vec<GameOver> = Vec::new();
    let mut audio: Vec<AudioCue> = Vec::new();
    let dead = enemy_hit_player(&p, &enemies, &score, &mut events, &mut audio);
    assert!(dead);
    assert_eq!(events.len(), 1);
    assert_eq!(events[0].score, 7);
    assert_eq!(audio, vec![AudioCue::ExplosionCrunch]);
}

#[test]
fn distant_enemy_leaves_player_alive() {
    let p = Player { position: Position { x: 400_000_000, y: 300_000_000 } };
    let enemies = vec![Enemy {
        position: Position { x: 500_000_000, y: 300_000_000 },
        direction: Direction { x: 0, y: 0 },
    }];
    let score = Kill { value: 7 };
    let mut events: Vec<GameOver> = Vec::new();
    let mut audio: Vec<AudioCue> = Vec::new();
    let dead = enemy_hit_player(&p, &enemies, &score, &mut events, &mut audio);
    assert!(!dead);
    assert!(events.is_empty());
    assert!(audio.is_empty());
}

#[test]
fn fatal_tick_removes_player_and_reports_score() {
    // play area 800 by 600, player radius 32 at the centre, enemy radius
    // 32 ten units to the right: the tick fires game over with the score
    let mut g = Game::new(W, H);
    g.app_state = AppState::Game;
    g.sim_state = SimulationState::Running;
    g.kill = Kill { value: 7 };
    g.player = Some(Player { position: Position { x: 400_000_000, y: 300_000_000 } });
    g.enemies = vec![Enemy {
        position: Position { x: 410_000_000, y: 300_000_000 },
        direction: Direction { x: 0, y: 0 },
    }];
    g.stars = Vec::new();
    g.tick(&quiet_frame(0));
    assert!(g.player.is_none());
    let reports = g.game_over_reader();
    assert_eq!(reports.len(), 1);
    assert_eq!(reports[0].score, 7);
    assert!(g.game_over_events.is_empty());
    let cues = g.drain_audio_events();
    assert!(cues.contains(&AudioCue::ExplosionCrunch));
    // no respawn path: the player stays gone on the next tick
    g.tick(&quiet_frame(16));
    assert!(g.player.is_none());
}

#[test]
fn pause_toggle_round_trip_over_ticks() {
    let mut g = Game::new(W, H);
    assert_eq!(g.app_state, AppState::MainMenu);
    assert_eq!(g.sim_state, SimulationState::Paused);
    // the pause key is inert outside the game screen
    let mut f = quiet_frame(16);
    f.space_just_pressed = true;
    g.tick(&f);
    assert_eq!(g.next_sim_state, None);
    // enter the game screen
    let mut f = quiet_frame(16);
    f.g_just_pressed = true;
    g.tick(&f);
    assert_eq!(g.next_app_state, Some(AppState::Game));
    // first press: the opposite run mode is queued, applied next frame
    let mut f = quiet_frame(16);
    f.space_just_pressed = true;
    g.tick(&f);
    assert_eq!(g.app_state, AppState::Game);
    assert_eq!(g.next_sim_state, Some(SimulationState::Running));
    // second press: queued back; after one more quiet frame the mode is
    // back where it started
    let mut f = quiet_frame(16);
    f.space_just_pressed = true;
    g.tick(&f);
    assert_eq!(g.sim_state, SimulationState::Running);
    assert_eq!(g.next_sim_state, Some(SimulationState::Paused));
    g.tick(&quiet_frame(16));
    assert_eq!(g.sim_state, SimulationState::Paused);
}

#[test]
fn menu_key_wins_over_game_key() {
    let mut g = Game::new(W, H);
    let mut f = quiet_frame(16);
    f.g_just_pressed = true;
    f.m_just_pressed = true;
    g.tick(&f);
    assert_eq!(g.next_app_state, Some(AppState::MainMenu));
}

#[test]
fn enemy_cycle_is_gated_stars_are_not() {
    let mut g = Game::new(W, H);
    g.app_state = AppState::Game;
    g.sim_state = SimulationState::Paused;
    g.enemies = vec![Enemy {
        position: Position { x: 400_000_000, y: 300_000_000 },
        direction: Direction { x: 1000, y: 0 },
    }];
    g.stars = vec![Star {
        position: Position { x: 200_000_000, y: 200_000_000 },
        direction: Direction { x: 1000, y: 0 },
    }];
    g.player = None;
    g.tick(&quiet_frame(16));
    // paused: the enemy stood still and its timer did not advance
    assert_eq!(g.enemies[0].position.x, 400_000_000);
    assert_eq!(g.enemy_timer.timer.elapsed_ms, 0);
    // the star cycle is not gated by either mode
    assert_eq!(g.stars[0].position.x, 200_000_000 + 1000 * 80 * 16);
    assert_eq!(g.star_timer.timer.elapsed_ms, 16);
}

#[test]
fn score_never_decreases_over_many_ticks() {
    let mut g = Game::new(W, H);
    g.app_state = AppState::Game;
    g.sim_state = SimulationState::Running;
    let mut last = g.kill.value;
    for i in 0..120 {
        let mut f = quiet_frame(16);
        f.keys.right = i % 3 == 0;
        f.keys.up = i % 5 == 0;
        g.tick(&f);
        assert!(g.kill.value >= last);
        last = g.kill.value;
    }
}

#[test]
fn new_game_starts_centered_with_initial_batches() {
    let g = Game::new(W, H);
    assert_eq!(g.app_state, AppState::MainMenu);
    assert_eq!(g.sim_state, SimulationState::Paused);
    assert_eq!(g.kill.value, 0);
    let p = g.player.expect("a fresh game owns one player");
    assert_eq!(p.position.x, W / 2);
    assert_eq!(p.position.y, H / 2);
    assert_eq!(g.enemies.len(), 1);
    assert_eq!(g.stars.len(), 1);
    // drawn spawns land inside the play area with bounded headings
    let e = &g.enemies[0];
    assert!(0 <= e.position.x && e.position.x < W);
    assert!(0 <= e.position.y && e.position.y < H);
    assert!(e.direction.x.abs() <= 1000 && e.direction.y.abs() <= 1000);
    // a fresh enemy heading is normalized: near-unit length, unless both
    // draws were zero
    let len2 = e.direction.x * e.direction.x + e.direction.y * e.direction.y;
    assert!(len2 == 0 || (995_999 <= len2 && len2 <= 1_002_000));
    let s = &g.stars[0];
    assert!(0 <= s.position.x && s.position.x < W);
    assert!(0 <= s.position.y && s.position.y < H);
    assert!(0 <= s.direction.x && s.direction.x < 1000);
    assert!(0 <= s.direction.y && s.direction.y < 1000);
}

#[test]
fn fired_timer_spawns_one_star() {
    let mut t = StarTimer { timer: SpawnTimer { elapsed_ms: 0, period_ms: 100_000, finished: false } };
    t.timer.tick(100_000);
    assert!(t.timer.finished);
    let mut stars: Vec<Star> = Vec::new();
    spawn_star_over_timer(&t, &mut stars, W, H);
    assert_eq!(stars.len(), 1);
    assert!(0 <= stars[0].position.x && stars[0].position.x < W);
    assert!(0 <= stars[0].position.y && stars[0].position.y < H);
}

#[test]
fn idle_timer_spawns_nothing() {
    let t = EnemyTimer::default();
    let mut enemies: Vec<Enemy> = Vec::new();
    star_chase::enemy::spawn_enemy_over_timer(&t, &mut enemies, W, H);
    assert!(enemies.is_empty());
}
