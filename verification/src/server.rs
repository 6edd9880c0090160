//! The per-frame driver: the two mode flags with their pending-next
//! slots, the game state that the three actor subsystems share, and the
//! tick that runs them in their fixed order.

use vstd::prelude::*;

use crate::audio::AudioCue;
use crate::enemy::{
    confine_enemy, enemy, enemy_run, enemy_wf, spawn_enemy_over_timer, spawned_enemy,
    tick_spawn_enemy_timer, Enemy, EnemyTimer, ENEMIES, ENEMY_LATER_DROP, ENEMY_SIZE, ENEMY_SPEED,
    ENEMY_FIRST_DROP,
};
use crate::geometry::{
    circles_overlap, confined_position, near_unit_or_zero, pos_within, reflected_direction,
    Position, DT_LIMIT_MS, POS_LIMIT,
};
use crate::player::{
    confine_player, enemy_hit_player, key_direction, overlapping_enemy_count, player,
    player_hit_star, player_run, retained_stars, star_hit_count, GameOver, KeyInput, Kill, Player,
    PLAYER_SIZE, PLAYER_SPEED,
};
use crate::star::{
    confine_star, spawn_star_over_timer, spawned_star, star, star_run, star_wf,
    tick_spawn_star_timer, Star, StarTimer, STARS, STAR_FIRST_DROP, STAR_SIZE, STAR_SPEED,
};
use crate::timer::{ticked, timer_wf};

verus! {

/// The screen mode: which top-level screen the application shows.  The
/// game-over value is declared but no transition reaches it.
#[derive(Clone, Copy, PartialEq, Eq, Structural, Debug)]
pub enum AppState {
    MainMenu,
    Game,
    GameOver,
}

impl Default for AppState {
    /// The application starts on the main menu.
    fn default() -> (s: AppState)
        ensures
            s == AppState::MainMenu,
    {
        AppState::MainMenu
    }
}

/// The run mode: whether the simulation advances or stands still.
#[derive(Clone, Copy, PartialEq, Eq, Structural, Debug)]
pub enum SimulationState {
    Running,
    Paused,
}

impl Default for SimulationState {
    /// The simulation starts paused.
    fn default() -> (s: SimulationState)
        ensures
            s == SimulationState::Paused,
    {
        SimulationState::Paused
    }
}

/// The opposite run mode.
pub open spec fn sim_flipped(s: SimulationState) -> SimulationState {
    match s {
        SimulationState::Running => SimulationState::Paused,
        SimulationState::Paused => SimulationState::Running,
    }
}

/// Law: flipping the run mode twice returns to the start, and a tick can
/// queue at most one flip, because the pause key arrives edge-triggered —
/// one boolean per tick — so pressing pause twice within one tick is not
/// possible by construction.
pub proof fn lemma_pause_toggle_round_trip(s: SimulationState)
    ensures
        sim_flipped(sim_flipped(s)) == s,
{
}

/// The value a mode takes once its pending slot is applied.
pub open spec fn applied<T>(cur: T, pending: Option<T>) -> T {
    match pending {
        Option::Some(s) => s,
        Option::None => cur,
    }
}

/// Whether the enemy subsystem runs this frame, once the pending modes
/// are applied: game screen shown and simulation running.
pub open spec fn enemy_cycle_active(g: Game) -> bool {
    &&& applied(g.app_state, g.next_app_state) == AppState::Game
    &&& applied(g.sim_state, g.next_sim_state) == SimulationState::Running
}

/// The player's position after this frame's mover step.
pub open spec fn player_moved_position(p: Position, keys: KeyInput, dt_ms: u64) -> Position {
    Position {
        x: (p.x + key_direction(keys).x * PLAYER_SPEED * dt_ms) as i64,
        y: (p.y + key_direction(keys).y * PLAYER_SPEED * dt_ms) as i64,
    }
}

/// Where the player stands once this frame's mover and then confiner ran.
pub open spec fn player_frame_position(p: Position, input: FrameInput) -> Position {
    confined_position(
        player_moved_position(p, input.keys, input.dt_ms),
        (PLAYER_SIZE / 2) as int,
        input.width as int,
        input.height as int,
    )
}

/// One enemy once this frame's mover and then confiner ran.
pub open spec fn enemy_frame(e: Enemy, input: FrameInput) -> Enemy {
    let m = Position {
        x: (e.position.x + e.direction.x * ENEMY_SPEED * input.dt_ms) as i64,
        y: (e.position.y + e.direction.y * ENEMY_SPEED * input.dt_ms) as i64,
    };
    Enemy {
        position: confined_position(m, (ENEMY_SIZE / 2) as int, input.width as int, input.height as int),
        direction: reflected_direction(
            m,
            e.direction,
            (ENEMY_SIZE / 2) as int,
            input.width as int,
            input.height as int,
        ),
    }
}

/// One star once this frame's mover and then confiner ran.
pub open spec fn star_frame(s: Star, input: FrameInput) -> Star {
    let m = Position {
        x: (s.position.x + s.direction.x * STAR_SPEED * input.dt_ms) as i64,
        y: (s.position.y + s.direction.y * STAR_SPEED * input.dt_ms) as i64,
    };
    Star {
        position: confined_position(m, (STAR_SIZE / 2) as int, input.width as int, input.height as int),
        direction: reflected_direction(
            m,
            s.direction,
            (STAR_SIZE / 2) as int,
            input.width as int,
            input.height as int,
        ),
    }
}

/// The enemy arena as this frame's collision pass sees it: moved and
/// confined when the enemy cycle runs, untouched when it stands still.
pub open spec fn enemy_field(g: Game, input: FrameInput) -> Seq<Enemy> {
    if enemy_cycle_active(g) {
        g.enemies@.map_values(|e: Enemy| enemy_frame(e, input))
    } else {
        g.enemies@
    }
}

/// The star arena as this frame's collision pass sees it: always moved
/// and confined — the star cycle carries no mode condition.
pub open spec fn star_field(g: Game, input: FrameInput) -> Seq<Star> {
    g.stars@.map_values(|s: Star| star_frame(s, input))
}

/// The collision pass's verdict on a player standing at its position:
/// removed exactly when some enemy of the field overlaps it.
pub open spec fn collided_player(p: Player, enemies: Seq<Enemy>) -> Option<Player> {
    if exists|i: int|
        0 <= i < enemies.len() && circles_overlap(
            p.position,
            enemies[i].position,
            (PLAYER_SIZE / 2) as int,
            (ENEMY_SIZE / 2) as int,
        ) {
        Option::<Player>::None
    } else {
        Option::Some(p)
    }
}

/// The player's fate this frame: moved and confined, then removed exactly
/// when some enemy of the collision field overlaps it.
pub open spec fn player_frame(p: Player, enemies: Seq<Enemy>, input: FrameInput) -> Option<Player> {
    collided_player(Player { position: player_frame_position(p.position, input) }, enemies)
}

/// Mode controller, run half: while the pause key was just pressed, the
/// opposite of the current run mode is queued in the pending slot.  The
/// driver only calls this in the game screen.
pub fn toggle_simulations(
    space_just_pressed: bool,
    sim: &SimulationState,
    next: &mut Option<SimulationState>,
)
    ensures
        *final(next) == if space_just_pressed {
            Option::Some(sim_flipped(*sim))
        } else {
            *old(next)
        },
{
    if space_just_pressed {
        if *sim == SimulationState::Running {
            *next = Option::Some(SimulationState::Paused);
        } else {
            *next = Option::Some(SimulationState::Running);
        }
    }
}

/// Mode controller, screen half: the game key queues the game screen, the
/// menu key queues the main menu; when both were just pressed the menu
/// key is evaluated second and wins.
pub fn transition_to_main_menu(
    g_just_pressed: bool,
    m_just_pressed: bool,
    next: &mut Option<AppState>,
)
    ensures
        *final(next) == if m_just_pressed {
            Option::Some(AppState::MainMenu)
        } else if g_just_pressed {
            Option::Some(AppState::Game)
        } else {
            *old(next)
        },
{
    if g_just_pressed {
        *next = Option::Some(AppState::Game);
    }
    if m_just_pressed {
        *next = Option::Some(AppState::MainMenu);
    }
}

/// Everything one frame reads: the elapsed time, the play-area size read
/// fresh each tick, the held movement keys, and the three just-pressed
/// mode keys, each edge-triggered.
#[derive(Clone, Copy, PartialEq, Eq, Structural, Debug)]
pub struct FrameInput {
    pub dt_ms: u64,
    pub width: i64,
    pub height: i64,
    pub keys: KeyInput,
    pub g_just_pressed: bool,
    pub m_just_pressed: bool,
    pub space_just_pressed: bool,
}

/// The whole game state: mode flags with their pending slots, the score,
/// the one-or-zero player, the enemy and star arenas, the two spawn
/// timers, and the two outboxes (game-over signals and audio cues).
pub struct Game {
    pub app_state: AppState,
    pub next_app_state: Option<AppState>,
    pub sim_state: SimulationState,
    pub next_sim_state: Option<SimulationState>,
    pub kill: Kill,
    pub player: Option<Player>,
    pub enemies: Vec<Enemy>,
    pub stars: Vec<Star>,
    pub enemy_timer: EnemyTimer,
    pub star_timer: StarTimer,
    pub game_over_events: Vec<GameOver>,
    pub audio_events: Vec<AudioCue>,
}

/// The game's invariant: every live actor keeps a bounded position and a
/// direction within one unit, and both timers are well formed.
pub open spec fn game_wf(g: Game) -> bool {
    &&& match g.player {
        Option::Some(p) => pos_within(p.position, POS_LIMIT as int),
        Option::None => true,
    }
    &&& forall|i: int| 0 <= i < g.enemies@.len() ==> enemy_wf(#[trigger] g.enemies@[i])
    &&& forall|i: int| 0 <= i < g.stars@.len() ==> star_wf(#[trigger] g.stars@[i])
    &&& timer_wf(g.enemy_timer.timer)
    &&& timer_wf(g.star_timer.timer)
}

impl Game {
    /// Builds the scene as the game starts: menu shown, simulation
    /// paused, score zero, the player at the centre of the play area,
    /// the initial enemy and star batches spawned, fresh timers, empty
    /// outboxes.
    pub fn new(width: i64, height: i64) -> (g: Game)
        requires
            1 <= width <= POS_LIMIT,
            1 <= height <= POS_LIMIT,
        ensures
            g.app_state == AppState::MainMenu,
            g.next_app_state is None,
            g.sim_state == SimulationState::Paused,
            g.next_sim_state is None,
            g.kill.value == 0,
            g.player == Option::Some(
                Player {
                    position: crate::geometry::Position {
                        x: (width as int / 2) as i64,
                        y: (height as int / 2) as i64,
                    },
                },
            ),
            g.enemies@.len() == ENEMIES,
            forall|i: int|
                0 <= i < g.enemies@.len() ==> spawned_enemy(
                    #[trigger] g.enemies@[i],
                    width as int,
                    height as int,
                    ENEMY_FIRST_DROP as int,
                ) && near_unit_or_zero(g.enemies@[i].direction),
            g.stars@.len() == STARS,
            forall|i: int|
                0 <= i < g.stars@.len() ==> spawned_star(
                    #[trigger] g.stars@[i],
                    width as int,
                    height as int,
                    STAR_FIRST_DROP as int,
                ),
            g.game_over_events@ == Seq::<GameOver>::empty(),
            g.audio_events@ == Seq::<AudioCue>::empty(),
            game_wf(g),
    {
        let mut enemies: Vec<Enemy> = Vec::new();
        enemy(&mut enemies, width, height);
        let mut stars: Vec<Star> = Vec::new();
        star(&mut stars, width, height);
        Game {
            app_state: AppState::default(),
            next_app_state: Option::None,
            sim_state: SimulationState::default(),
            next_sim_state: Option::None,
            kill: Kill::default(),
            player: Option::Some(player(width, height)),
            enemies,
            stars,
            enemy_timer: EnemyTimer::default(),
            star_timer: StarTimer::default(),
            game_over_events: Vec::new(),
            audio_events: Vec::new(),
        }
    }

    /// The frame's mover-then-confiner half: the player and the stars
    /// run it every frame, the enemies only while `run_enemy` holds; the
    /// mover runs strictly before the confiner for each kind.
    fn frame_actors(&mut self, input: &FrameInput, run_enemy: bool)
        requires
            game_wf(*old(self)),
            input.dt_ms <= DT_LIMIT_MS,
            PLAYER_SIZE <= input.width <= POS_LIMIT,
            PLAYER_SIZE <= input.height <= POS_LIMIT,
            ENEMY_SIZE <= input.width && ENEMY_SIZE <= input.height,
            STAR_SIZE <= input.width && STAR_SIZE <= input.height,
        ensures
            old(self).player is Some ==> final(self).player == Option::Some(
                Player {
                    position: player_frame_position(old(self).player->Some_0.position, *input),
                },
            ),
            old(self).player is None ==> final(self).player is None,
            run_enemy ==> final(self).enemies@ == old(self).enemies@.map_values(
                |e: Enemy| enemy_frame(e, *input),
            ),
            !run_enemy ==> final(self).enemies@ == old(self).enemies@,
            final(self).stars@ == old(self).stars@.map_values(|s: Star| star_frame(s, *input)),
            final(self).player matches Option::Some(p) ==> pos_within(
                p.position,
                POS_LIMIT as int,
            ),
            forall|i: int|
                0 <= i < final(self).enemies@.len() ==> enemy_wf(#[trigger] final(self).enemies@[i]),
            forall|i: int|
                0 <= i < final(self).stars@.len() ==> star_wf(#[trigger] final(self).stars@[i]),
            final(self).audio_events@.len() >= old(self).audio_events@.len(),
            final(self).audio_events@.subrange(0, old(self).audio_events@.len() as int)
                == old(self).audio_events@,
            final(self).app_state == old(self).app_state,
            final(self).next_app_state == old(self).next_app_state,
            final(self).sim_state == old(self).sim_state,
            final(self).next_sim_state == old(self).next_sim_state,
            final(self).kill == old(self).kill,
            final(self).game_over_events@ == old(self).game_over_events@,
            final(self).enemy_timer == old(self).enemy_timer,
            final(self).star_timer == old(self).star_timer,
    {
        proof {
            assert(old(self).audio_events@.subrange(0, old(self).audio_events@.len() as int)
                =~= old(self).audio_events@);
        }
        // movement
        match self.player {
            Option::Some(mut p) => {
                player_run(&mut p, &input.keys, input.dt_ms);
                self.player = Option::Some(p);
            },
            Option::None => {},
        }
        if run_enemy {
            enemy_run(&mut self.enemies, input.dt_ms);
        }
        star_run(&mut self.stars, input.dt_ms);
        // confinement
        match self.player {
            Option::Some(mut p) => {
                confine_player(&mut p, input.width, input.height, &mut self.audio_events);
                self.player = Option::Some(p);
            },
            Option::None => {},
        }
        if run_enemy {
            confine_enemy(&mut self.enemies, input.width, input.height, &mut self.audio_events);
        }
        confine_star(&mut self.stars, input.width, input.height, &mut self.audio_events);
        proof {
            if run_enemy {
                assert forall|i: int|
                    0 <= i < self.enemies@.len() implies #[trigger] self.enemies@[i] == enemy_frame(
                    old(self).enemies@[i],
                    *input,
                ) by {}
                assert(self.enemies@ =~= old(self).enemies@.map_values(
                    |e: Enemy| enemy_frame(e, *input),
                ));
            }
            assert forall|i: int|
                0 <= i < self.stars@.len() implies #[trigger] self.stars@[i] == star_frame(
                old(self).stars@[i],
                *input,
            ) by {}
            assert(self.stars@ =~= old(self).stars@.map_values(|s: Star| star_frame(s, *input)));
        }
    }

    /// The frame's collision pass: both detectors observe the same player,
    /// whose removal is deferred to the end of the pass.
    fn frame_collisions(&mut self)
        requires
            old(self).player matches Option::Some(p) ==> pos_within(p.position, POS_LIMIT as int),
            forall|i: int|
                0 <= i < old(self).enemies@.len() ==> pos_within(
                    (#[trigger] old(self).enemies@[i]).position,
                    POS_LIMIT as int,
                ),
            forall|i: int| 0 <= i < old(self).stars@.len() ==> star_wf(#[trigger] old(self).stars@[i]),
            old(self).kill.value + old(self).stars@.len() <= u32::MAX,
        ensures
            old(self).player matches Option::Some(p) ==> ({
                &&& final(self).player == collided_player(p, old(self).enemies@)
                &&& final(self).kill.value == old(self).kill.value + star_hit_count(
                    p.position,
                    old(self).stars@,
                )
                &&& final(self).stars@ == retained_stars(p.position, old(self).stars@)
                &&& final(self).game_over_events@.len() == old(self).game_over_events@.len()
                    + overlapping_enemy_count(p.position, old(self).enemies@)
            }),
            old(self).player is None ==> final(self).player is None && final(self).kill == old(
                self,
            ).kill && final(self).stars@ == old(self).stars@ && final(self).game_over_events@
                == old(self).game_over_events@,
            (old(self).player is Some && final(self).player is None)
                ==> final(self).game_over_events@.len() >= old(self).game_over_events@.len() + 1,
            final(self).kill.value >= old(self).kill.value,
            final(self).game_over_events@.len() >= old(self).game_over_events@.len(),
            final(self).game_over_events@.subrange(0, old(self).game_over_events@.len() as int)
                == old(self).game_over_events@,
            forall|i: int|
                old(self).game_over_events@.len() <= i < final(self).game_over_events@.len()
                    ==> #[trigger] final(self).game_over_events@[i] == (GameOver {
                    score: old(self).kill.value,
                }),
            forall|i: int|
                0 <= i < final(self).stars@.len() ==> star_wf(#[trigger] final(self).stars@[i]),
            final(self).audio_events@.len() >= old(self).audio_events@.len(),
            final(self).audio_events@.subrange(0, old(self).audio_events@.len() as int)
                == old(self).audio_events@,
            final(self).app_state == old(self).app_state,
            final(self).next_app_state == old(self).next_app_state,
            final(self).sim_state == old(self).sim_state,
            final(self).next_sim_state == old(self).next_sim_state,
            final(self).enemies@ == old(self).enemies@,
            final(self).enemy_timer == old(self).enemy_timer,
            final(self).star_timer == old(self).star_timer,
    {
        proof {
            assert(old(self).game_over_events@.subrange(
                0,
                old(self).game_over_events@.len() as int,
            ) =~= old(self).game_over_events@);
            assert(old(self).audio_events@.subrange(0, old(self).audio_events@.len() as int)
                =~= old(self).audio_events@);
        }
        let mut player_dead = false;
        match self.player {
            Option::Some(p) => {
                let ghost enemies_at_hit = self.enemies@;
                player_dead = enemy_hit_player(
                    &p,
                    &self.enemies,
                    &self.kill,
                    &mut self.game_over_events,
                    &mut self.audio_events,
                );
                proof {
                    if player_dead {
                        let w = choose|i: int|
                            0 <= i < enemies_at_hit.len() && circles_overlap(
                                p.position,
                                enemies_at_hit[i].position,
                                (PLAYER_SIZE / 2) as int,
                                (ENEMY_SIZE / 2) as int,
                            );
                        crate::player::lemma_overlap_yields_signal(p.position, enemies_at_hit, w);
                    }
                }
                player_hit_star(&p, &mut self.stars, &mut self.kill, &mut self.audio_events);
            },
            Option::None => {},
        }
        if player_dead {
            self.player = Option::None;
        }
    }

    /// One frame of the fixed cycle: pending modes applied, then mode
    /// transitions, movement, confinement, collision with deferred player
    /// removal, timer ticking and timer-driven spawning.  The enemy
    /// subsystem runs only in the game screen while the simulation runs;
    /// the player and star subsystems are not gated, as the observed
    /// wiring has it.
    #[verifier::rlimit(100)]
    pub fn tick(&mut self, input: &FrameInput)
        requires
            game_wf(*old(self)),
            input.dt_ms <= DT_LIMIT_MS,
            PLAYER_SIZE <= input.width <= POS_LIMIT,
            PLAYER_SIZE <= input.height <= POS_LIMIT,
            ENEMY_SIZE <= input.width && ENEMY_SIZE <= input.height,
            STAR_SIZE <= input.width && STAR_SIZE <= input.height,
            old(self).kill.value + old(self).stars@.len() <= u32::MAX,
        ensures
            game_wf(*final(self)),
            // the score counter never decreases
            final(self).kill.value >= old(self).kill.value,
            // the pending modes are applied between frames ...
            final(self).app_state == applied(old(self).app_state, old(self).next_app_state),
            final(self).sim_state == applied(old(self).sim_state, old(self).next_sim_state),
            // ... and this frame's keys queue at most one new pending value each
            final(self).next_app_state == if input.m_just_pressed {
                Option::Some(AppState::MainMenu)
            } else if input.g_just_pressed {
                Option::Some(AppState::Game)
            } else {
                Option::<AppState>::None
            },
            final(self).next_sim_state == if input.space_just_pressed && applied(
                old(self).app_state,
                old(self).next_app_state,
            ) == AppState::Game {
                Option::Some(
                    sim_flipped(applied(old(self).sim_state, old(self).next_sim_state)),
                )
            } else {
                Option::<SimulationState>::None
            },
            // the enemy subsystem runs only on game-and-running: while
            // it stands still nothing of it moves ...
            !enemy_cycle_active(*old(self)) ==> final(self).enemies@ == old(self).enemies@
                && final(self).enemy_timer == old(self).enemy_timer,
            // ... and otherwise the whole enemy cycle runs: mover then
            // confiner on every enemy, the timer advances, and a fired
            // timer spawns exactly one drawn enemy
            enemy_cycle_active(*old(self)) ==> ({
                let field = enemy_field(*old(self), *input);
                let fired = ticked(old(self).enemy_timer.timer, input.dt_ms).finished;
                &&& final(self).enemy_timer.timer == ticked(old(self).enemy_timer.timer, input.dt_ms)
                &&& final(self).enemies@.len() == field.len() + if fired {
                    1int
                } else {
                    0int
                }
                &&& final(self).enemies@.subrange(0, field.len() as int) == field
                &&& (fired ==> spawned_enemy(
                    final(self).enemies@.last(),
                    input.width as int,
                    input.height as int,
                    ENEMY_LATER_DROP as int,
                ))
            }),
            // the star cycle runs every frame, ungated: its timer always
            // advances ...
            final(self).star_timer.timer == ticked(old(self).star_timer.timer, input.dt_ms),
            // ... and the arena becomes the moved-and-confined field, less
            // the stars the player collected, plus one drawn star on a fire
            ({
                let survivors = if old(self).player is Some {
                    retained_stars(
                        player_frame_position(old(self).player->Some_0.position, *input),
                        star_field(*old(self), *input),
                    )
                } else {
                    star_field(*old(self), *input)
                };
                let fired = ticked(old(self).star_timer.timer, input.dt_ms).finished;
                &&& final(self).stars@.len() == survivors.len() + if fired {
                    1int
                } else {
                    0int
                }
                &&& final(self).stars@.subrange(0, survivors.len() as int) == survivors
                &&& (fired ==> spawned_star(
                    final(self).stars@.last(),
                    input.width as int,
                    input.height as int,
                    0,
                ))
            }),
            // the player is moved and then confined every frame, ungated,
            // and removed exactly when an enemy of the collision field
            // overlaps it; the score and the signal outbox grow by the
            // exact overlap counts
            old(self).player matches Option::Some(p) ==> ({
                &&& final(self).player == player_frame(p, enemy_field(*old(self), *input), *input)
                &&& final(self).kill.value == old(self).kill.value + star_hit_count(
                    player_frame_position(p.position, *input),
                    star_field(*old(self), *input),
                )
                &&& final(self).game_over_events@.len() == old(self).game_over_events@.len()
                    + overlapping_enemy_count(
                    player_frame_position(p.position, *input),
                    enemy_field(*old(self), *input),
                )
            }),
            // a player-less frame skips both collision detectors silently
            old(self).player is None ==> final(self).kill == old(self).kill
                && final(self).game_over_events@ == old(self).game_over_events@,
            // game-over signals are only appended, each carrying the score
            // as it stood before the collision pass
            final(self).game_over_events@.len() >= old(self).game_over_events@.len(),
            final(self).game_over_events@.subrange(0, old(self).game_over_events@.len() as int)
                == old(self).game_over_events@,
            forall|i: int|
                old(self).game_over_events@.len() <= i < final(self).game_over_events@.len()
                    ==> #[trigger] final(self).game_over_events@[i] == (GameOver {
                    score: old(self).kill.value,
                }),
            // a dead player stays dead: no respawn path exists
            old(self).player is None ==> final(self).player is None,
            // a death this tick carries at least one game-over signal
            (old(self).player is Some && final(self).player is None)
                ==> final(self).game_over_events@.len()
                >= old(self).game_over_events@.len() + 1,
            // audio cues are only appended
            final(self).audio_events@.len() >= old(self).audio_events@.len(),
            final(self).audio_events@.subrange(0, old(self).audio_events@.len() as int)
                == old(self).audio_events@,
    {
        proof {
            assert(old(self).game_over_events@.subrange(
                0,
                old(self).game_over_events@.len() as int,
            ) =~= old(self).game_over_events@);
            assert(old(self).audio_events@.subrange(0, old(self).audio_events@.len() as int)
                =~= old(self).audio_events@);
        }
        // pending modes, queued last frame, take effect between frames
        match self.next_app_state {
            Option::Some(s) => {
                self.app_state = s;
            },
            Option::None => {},
        }
        self.next_app_state = Option::None;
        match self.next_sim_state {
            Option::Some(s) => {
                self.sim_state = s;
            },
            Option::None => {},
        }
        self.next_sim_state = Option::None;
        // input and mode transitions
        transition_to_main_menu(
            input.g_just_pressed,
            input.m_just_pressed,
            &mut self.next_app_state,
        );
        if self.app_state == AppState::Game {
            toggle_simulations(input.space_just_pressed, &self.sim_state, &mut self.next_sim_state);
        }
        let run_enemy = self.app_state == AppState::Game && self.sim_state
            == SimulationState::Running;
        proof {
            assert(run_enemy == enemy_cycle_active(*old(self)));
        }
        // movement, then confinement, for every ungated actor kind
        self.frame_actors(input, run_enemy);
        proof {
            assert(self.enemies@ == enemy_field(*old(self), *input));
            assert(self.stars@ == star_field(*old(self), *input));
        }
        // collision, with the player's removal deferred past both passes
        self.frame_collisions();
        // timer ticking, then timer-driven spawning
        if run_enemy {
            tick_spawn_enemy_timer(&mut self.enemy_timer, input.dt_ms);
            let ghost enemies_before = self.enemies@;
            spawn_enemy_over_timer(&self.enemy_timer, &mut self.enemies, input.width, input.height);
            proof {
                assert forall|i: int| 0 <= i < self.enemies@.len() implies enemy_wf(
                    #[trigger] self.enemies@[i],
                ) by {
                    if i < enemies_before.len() {
                        assert(self.enemies@.subrange(0, enemies_before.len() as int)[i]
                            == self.enemies@[i]);
                    }
                }
            }
        }
        tick_spawn_star_timer(&mut self.star_timer, input.dt_ms);
        let ghost stars_before = self.stars@;
        spawn_star_over_timer(&self.star_timer, &mut self.stars, input.width, input.height);
        proof {
            assert forall|i: int| 0 <= i < self.stars@.len() implies star_wf(
                #[trigger] self.stars@[i],
            ) by {
                if i < stars_before.len() {
                    assert(self.stars@.subrange(0, stars_before.len() as int)[i]
                        == self.stars@[i]);
                }
            }
        }
    }

    /// The designated consumer's read of the game-over outbox: hands the
    /// queued signals out and leaves the outbox empty, touching nothing
    /// else.
    pub fn game_over_reader(&mut self) -> (drained: Vec<GameOver>)
        ensures
            drained@ == old(self).game_over_events@,
            final(self).game_over_events@ == Seq::<GameOver>::empty(),
            final(self).app_state == old(self).app_state,
            final(self).next_app_state == old(self).next_app_state,
            final(self).sim_state == old(self).sim_state,
            final(self).next_sim_state == old(self).next_sim_state,
            final(self).kill == old(self).kill,
            final(self).player == old(self).player,
            final(self).enemies@ == old(self).enemies@,
            final(self).stars@ == old(self).stars@,
            final(self).enemy_timer == old(self).enemy_timer,
            final(self).star_timer == old(self).star_timer,
            final(self).audio_events@ == old(self).audio_events@,
    {
        let mut drained: Vec<GameOver> = Vec::new();
        core::mem::swap(&mut drained, &mut self.game_over_events);
        drained
    }

    /// The pending audio side of the frame: hands the queued cues out and
    /// leaves the cue outbox empty, touching nothing else.
    pub fn drain_audio_events(&mut self) -> (drained: Vec<AudioCue>)
        ensures
            drained@ == old(self).audio_events@,
            final(self).audio_events@ == Seq::<AudioCue>::empty(),
            final(self).app_state == old(self).app_state,
            final(self).next_app_state == old(self).next_app_state,
            final(self).sim_state == old(self).sim_state,
            final(self).next_sim_state == old(self).next_sim_state,
            final(self).kill == old(self).kill,
            final(self).player == old(self).player,
            final(self).enemies@ == old(self).enemies@,
            final(self).stars@ == old(self).stars@,
            final(self).enemy_timer == old(self).enemy_timer,
            final(self).star_timer == old(self).star_timer,
            final(self).game_over_events@ == old(self).game_over_events@,
    {
        let mut drained: Vec<AudioCue> = Vec::new();
        core::mem::swap(&mut drained, &mut self.audio_events);
        drained
    }
}

} // verus!
