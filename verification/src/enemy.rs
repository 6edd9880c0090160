//! The enemy subsystem: spawner, mover, confiner and spawn timer for the
//! red circles the player must avoid.

use vstd::prelude::*;

use crate::audio::{bounce_cue, plucks_appended, AudioCue};
use crate::geometry::{
    bounced, confine_axis, confined_position, dir_within_unit, drawn_position, near_unit_or_zero,
    pos_within, reflected_direction, scale_to_unit, spawn_position, translate, unit_direction,
    Direction, Position, DIR_UNIT, DT_LIMIT_MS, MOVED_LIMIT, POS_LIMIT,
};
use crate::timer::{ticked, timer_wf, SpawnTimer};

verus! {

/// Enemy speed, in world units per second.
pub const ENEMY_SPEED: i64 = 200;

/// Enemy diameter, in position sub-units.
pub const ENEMY_SIZE: i64 = 64_000_000;

/// Size of the initial enemy batch.
pub const ENEMIES: usize = 1;

/// Period of the enemy spawn timer, in milliseconds.
pub const ENEMY_TIMER_MS: u64 = 100_000;

/// The drawn height above which a fresh spawn is pulled down, in
/// sub-units.
pub const SPAWN_Y_CUTOFF: i64 = 606_526_500;

/// How far the initial batch's spawner pulls a high draw down, in
/// sub-units.
pub const ENEMY_FIRST_DROP: i64 = 206_526_500;

/// How far the timer-driven spawner pulls a high draw down, in sub-units.
pub const ENEMY_LATER_DROP: i64 = 406_526_500;

/// An enemy: a position and a persistent heading, mutated only by
/// boundary bounces.
#[derive(Clone, Copy, PartialEq, Eq, Structural, Debug)]
pub struct Enemy {
    pub position: Position,
    pub direction: Direction,
}

/// The enemy spawn timer.
#[derive(Clone, Copy, PartialEq, Eq, Structural, Debug)]
pub struct EnemyTimer {
    pub timer: SpawnTimer,
}

impl Default for EnemyTimer {
    /// A fresh repeating timer over the enemy spawn period.
    fn default() -> (t: EnemyTimer)
        ensures
            t.timer == (SpawnTimer { elapsed_ms: 0u64, period_ms: ENEMY_TIMER_MS, finished: false }),
            timer_wf(t.timer),
    {
        EnemyTimer { timer: SpawnTimer::from_period(ENEMY_TIMER_MS) }
    }
}

/// The invariant each stored enemy keeps: a bounded position and a
/// direction within one unit.
pub open spec fn enemy_wf(e: Enemy) -> bool {
    &&& pos_within(e.position, POS_LIMIT as int)
    &&& dir_within_unit(e.direction)
}

/// The enemy a set of draws yields: position from the first two draws,
/// heading from the last two, normalized.
pub open spec fn enemy_of_draws(
    rx: u64,
    ry: u64,
    rdx: u64,
    rdy: u64,
    width: int,
    height: int,
    drop: int,
) -> Enemy {
    Enemy {
        position: spawn_position(rx, ry, width, height, SPAWN_Y_CUTOFF as int, drop),
        direction: unit_direction((rdx as int) % (DIR_UNIT as int), (rdy as int) % (DIR_UNIT as int)),
    }
}

/// `e` is an enemy some set of draws yields for this play area and drop.
pub open spec fn spawned_enemy(e: Enemy, width: int, height: int, drop: int) -> bool {
    exists|rx: u64, ry: u64, rdx: u64, rdy: u64|
        e == #[trigger] enemy_of_draws(rx, ry, rdx, rdy, width, height, drop)
}

/// Builds the enemy a set of draws yields, exactly as
/// [`enemy_of_draws`] states it.
fn enemy_from_draws(
    rx: u64,
    ry: u64,
    rdx: u64,
    rdy: u64,
    width: i64,
    height: i64,
    drop: i64,
) -> (e: Enemy)
    requires
        1 <= width <= POS_LIMIT,
        1 <= height <= POS_LIMIT,
        0 <= drop <= SPAWN_Y_CUTOFF,
    ensures
        e == enemy_of_draws(rx, ry, rdx, rdy, width as int, height as int, drop as int),
        0 <= e.position.x < width,
        0 <= e.position.y < height,
        enemy_wf(e),
        near_unit_or_zero(e.direction),
{
    let position = drawn_position(rx, ry, width, height, SPAWN_Y_CUTOFF, drop);
    let direction = scale_to_unit((rdx % (DIR_UNIT as u64)) as i64, (rdy % (DIR_UNIT as u64)) as i64);
    Enemy { position, direction }
}

/// Actor spawner for the initial batch: one enemy per batch slot, each at
/// a drawn position with a normalized drawn heading.
pub fn enemy(enemies: &mut Vec<Enemy>, width: i64, height: i64)
    requires
        1 <= width <= POS_LIMIT,
        1 <= height <= POS_LIMIT,
    ensures
        final(enemies)@.len() == old(enemies)@.len() + ENEMIES,
        final(enemies)@.subrange(0, old(enemies)@.len() as int) == old(enemies)@,
        forall|i: int|
            old(enemies)@.len() <= i < final(enemies)@.len() ==> spawned_enemy(
                #[trigger] final(enemies)@[i],
                width as int,
                height as int,
                ENEMY_FIRST_DROP as int,
            ) && enemy_wf(final(enemies)@[i]) && near_unit_or_zero(final(enemies)@[i].direction),
{
    let base = enemies.len();
    proof {
        assert(enemies@.subrange(0, base as int) =~= enemies@);
    }
    let mut k: usize = 0;
    while k < ENEMIES
        invariant
            1 <= width <= POS_LIMIT,
            1 <= height <= POS_LIMIT,
            base == old(enemies)@.len(),
            enemies@.len() == base + k,
            k <= ENEMIES,
            enemies@.subrange(0, base as int) == old(enemies)@,
            forall|i: int|
                base <= i < enemies@.len() ==> spawned_enemy(
                    #[trigger] enemies@[i],
                    width as int,
                    height as int,
                    ENEMY_FIRST_DROP as int,
                ) && enemy_wf(enemies@[i]) && near_unit_or_zero(enemies@[i].direction),
        decreases ENEMIES - k,
    {
        let rx = rand::random::<u64>();
        let ry = rand::random::<u64>();
        let rdx = rand::random::<u64>();
        let rdy = rand::random::<u64>();
        let e = enemy_from_draws(rx, ry, rdx, rdy, width, height, ENEMY_FIRST_DROP);
        let ghost prev = enemies@;
        enemies.push(e);
        proof {
            assert(enemies@.subrange(0, base as int) =~= prev.subrange(0, base as int));
            assert(spawned_enemy(e, width as int, height as int, ENEMY_FIRST_DROP as int)) by {
                assert(e == enemy_of_draws(
                    rx,
                    ry,
                    rdx,
                    rdy,
                    width as int,
                    height as int,
                    ENEMY_FIRST_DROP as int,
                ));
            }
        }
        k = k + 1;
    }
}

/// Actor mover: every enemy advances by its heading times the enemy speed
/// times the elapsed time.
pub fn enemy_run(enemies: &mut Vec<Enemy>, dt_ms: u64)
    requires
        forall|i: int| 0 <= i < old(enemies)@.len() ==> enemy_wf(#[trigger] old(enemies)@[i]),
        dt_ms <= DT_LIMIT_MS,
    ensures
        final(enemies)@.len() == old(enemies)@.len(),
        forall|i: int|
            0 <= i < old(enemies)@.len() ==> {
                let e = old(enemies)@[i];
                let f = #[trigger] final(enemies)@[i];
                &&& f.position.x == e.position.x + e.direction.x * ENEMY_SPEED * dt_ms
                &&& f.position.y == e.position.y + e.direction.y * ENEMY_SPEED * dt_ms
                &&& f.direction == e.direction
                &&& pos_within(f.position, MOVED_LIMIT as int)
                &&& dir_within_unit(f.direction)
            },
{
    let n = enemies.len();
    let mut i: usize = 0;
    while i < n
        invariant
            n == enemies@.len(),
            n == old(enemies)@.len(),
            i <= n,
            dt_ms <= DT_LIMIT_MS,
            forall|j: int| i <= j < n ==> #[trigger] enemies@[j] == old(enemies)@[j],
            forall|j: int| 0 <= j < n ==> enemy_wf(#[trigger] old(enemies)@[j]),
            forall|j: int|
                0 <= j < i ==> {
                    let e = old(enemies)@[j];
                    let f = #[trigger] enemies@[j];
                    &&& f.position.x == e.position.x + e.direction.x * ENEMY_SPEED * dt_ms
                    &&& f.position.y == e.position.y + e.direction.y * ENEMY_SPEED * dt_ms
                    &&& f.direction == e.direction
                    &&& pos_within(f.position, MOVED_LIMIT as int)
                },
        decreases n - i,
    {
        let e = enemies[i];
        let moved = Enemy { position: translate(e.position, e.direction, ENEMY_SPEED, dt_ms), direction: e.direction };
        enemies.set(i, moved);
        i = i + 1;
    }
}

/// How many of these enemies the confiner bounces in this play area.
pub open spec fn enemy_bounce_count(s: Seq<Enemy>, w: int, h: int) -> int
    decreases s.len(),
{
    if s.len() == 0 {
        0
    } else {
        enemy_bounce_count(s.drop_last(), w, h) + if bounced(
            s.last().position,
            (ENEMY_SIZE / 2) as int,
            w,
            h,
        ) {
            1int
        } else {
            0int
        }
    }
}

/// Boundary confiner: each enemy's position is clamped to the play area
/// and its heading reflected on every crossed axis; each bounce queues one
/// of the two pluck cues, picked by a draw.
pub fn confine_enemy(enemies: &mut Vec<Enemy>, width: i64, height: i64, audio: &mut Vec<AudioCue>)
    requires
        ENEMY_SIZE <= width <= POS_LIMIT,
        ENEMY_SIZE <= height <= POS_LIMIT,
        forall|i: int| 0 <= i < old(enemies)@.len() ==> dir_within_unit(#[trigger] old(enemies)@[i].direction),
    ensures
        0 <= enemy_bounce_count(old(enemies)@, width as int, height as int)
            <= old(enemies)@.len(),
        final(enemies)@.len() == old(enemies)@.len(),
        forall|i: int|
            0 <= i < old(enemies)@.len() ==> {
                let e = old(enemies)@[i];
                let f = #[trigger] final(enemies)@[i];
                &&& f.position == confined_position(e.position, (ENEMY_SIZE / 2) as int, width as int, height as int)
                &&& f.direction == reflected_direction(e.position, e.direction, (ENEMY_SIZE / 2) as int, width as int, height as int)
                &&& enemy_wf(f)
            },
        plucks_appended(
            old(audio)@,
            final(audio)@,
            enemy_bounce_count(old(enemies)@, width as int, height as int),
        ),
{
    let half: i64 = ENEMY_SIZE / 2;
    let min_x = half;
    let max_x = width - half;
    let min_y = half;
    let max_y = height - half;
    let n = enemies.len();
    proof {
        assert(old(audio)@.subrange(0, old(audio)@.len() as int) =~= old(audio)@);
        assert(enemy_bounce_count(
            old(enemies)@.subrange(0, 0),
            width as int,
            height as int,
        ) == 0);
    }
    let mut i: usize = 0;
    while i < n
        invariant
            n == enemies@.len(),
            n == old(enemies)@.len(),
            i <= n,
            0 <= enemy_bounce_count(
                old(enemies)@.subrange(0, i as int),
                width as int,
                height as int,
            ) <= i,
            half == (ENEMY_SIZE / 2) as int,
            min_x == half && max_x == width - half && min_y == half && max_y == height - half,
            ENEMY_SIZE <= width <= POS_LIMIT,
            ENEMY_SIZE <= height <= POS_LIMIT,
            forall|j: int| i <= j < n ==> #[trigger] enemies@[j] == old(enemies)@[j],
            forall|j: int| 0 <= j < n ==> dir_within_unit(#[trigger] old(enemies)@[j].direction),
            forall|j: int|
                0 <= j < i ==> {
                    let e = old(enemies)@[j];
                    let f = #[trigger] enemies@[j];
                    &&& f.position == confined_position(e.position, (ENEMY_SIZE / 2) as int, width as int, height as int)
                    &&& f.direction == reflected_direction(e.position, e.direction, (ENEMY_SIZE / 2) as int, width as int, height as int)
                    &&& enemy_wf(f)
                },
            plucks_appended(
                old(audio)@,
                audio@,
                enemy_bounce_count(old(enemies)@.subrange(0, i as int), width as int, height as int),
            ),
        decreases n - i,
    {
        let e = enemies[i];
        let (px, dx, out_x) = confine_axis(e.position.x, min_x, max_x, e.direction.x);
        let (py, dy, out_y) = confine_axis(e.position.y, min_y, max_y, e.direction.y);
        let confined = Enemy { position: Position { x: px, y: py }, direction: Direction { x: dx, y: dy } };
        enemies.set(i, confined);
        let ghost prev_audio = audio@;
        if out_x || out_y {
            let r = rand::random::<u64>();
            audio.push(bounce_cue(r));
        }
        proof {
            let sub1 = old(enemies)@.subrange(0, i + 1);
            assert(sub1.drop_last() =~= old(enemies)@.subrange(0, i as int));
            assert(sub1.last() == old(enemies)@[i as int]);
            assert(audio@.subrange(0, old(audio)@.len() as int) =~= old(audio)@);
        }
        i = i + 1;
    }
    proof {
        assert(old(enemies)@.subrange(0, n as int) =~= old(enemies)@);
    }
}

/// Advances the enemy spawn timer by the frame's elapsed time.
pub fn tick_spawn_enemy_timer(t: &mut EnemyTimer, dt_ms: u64)
    requires
        timer_wf(old(t).timer),
        dt_ms <= DT_LIMIT_MS,
    ensures
        final(t).timer == ticked(old(t).timer, dt_ms),
        timer_wf(final(t).timer),
{
    t.timer.tick(dt_ms);
}

/// Timer-driven spawner: when the timer fired this tick, one more enemy
/// joins, at a drawn position with a normalized drawn heading; spawning is
/// unconditional on the fire, whatever the population.
pub fn spawn_enemy_over_timer(t: &EnemyTimer, enemies: &mut Vec<Enemy>, width: i64, height: i64)
    requires
        1 <= width <= POS_LIMIT,
        1 <= height <= POS_LIMIT,
    ensures
        !t.timer.finished ==> final(enemies)@ == old(enemies)@,
        t.timer.finished ==> {
            &&& final(enemies)@.len() == old(enemies)@.len() + 1
            &&& final(enemies)@.subrange(0, old(enemies)@.len() as int) == old(enemies)@
            &&& spawned_enemy(
                final(enemies)@.last(),
                width as int,
                height as int,
                ENEMY_LATER_DROP as int,
            )
            &&& enemy_wf(final(enemies)@.last())
            &&& near_unit_or_zero(final(enemies)@.last().direction)
        },
{
    if t.timer.finished() {
        let rx = rand::random::<u64>();
        let ry = rand::random::<u64>();
        let rdx = rand::random::<u64>();
        let rdy = rand::random::<u64>();
        let ghost prev = enemies@;
        let e = enemy_from_draws(rx, ry, rdx, rdy, width, height, ENEMY_LATER_DROP);
        enemies.push(e);
        proof {
            assert(enemies@.subrange(0, prev.len() as int) =~= prev);
            assert(spawned_enemy(e, width as int, height as int, ENEMY_LATER_DROP as int)) by {
                assert(e == enemy_of_draws(
                    rx,
                    ry,
                    rdx,
                    rdy,
                    width as int,
                    height as int,
                    ENEMY_LATER_DROP as int,
                ));
            }
        }
    }
}

} // verus!
