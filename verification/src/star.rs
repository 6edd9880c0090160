//! The star subsystem: spawner, mover, confiner and spawn timer for the
//! circles the player collects for score.
//!
//! Two quirks of the star kind are kept on purpose: a fresh star's heading
//! is left un-normalized (each component is just a draw below one unit),
//! and its bounce cue is always the first pluck — the confiner's two cue
//! choices coincide.

use vstd::prelude::*;

use crate::audio::{cues_appended, AudioCue};
use crate::geometry::{
    bounced, confine_axis, confined_position, dir_within_unit, drawn_position, pos_within,
    reflected_direction, spawn_position, translate, Direction, Position, DIR_UNIT, DT_LIMIT_MS,
    MOVED_LIMIT, POS_LIMIT,
};
use crate::timer::{ticked, timer_wf, SpawnTimer};

verus! {

/// Star speed, in world units per second.
pub const STAR_SPEED: i64 = 80;

/// Star diameter, in position sub-units.
pub const STAR_SIZE: i64 = 64_000_000;

/// Size of the initial star batch.
pub const STARS: usize = 1;

/// Period of the star spawn timer, in milliseconds.
pub const STAR_TIMER_MS: u64 = 100_000;

/// The drawn height above which the initial batch's spawner pulls a star
/// down, in sub-units.
pub const STAR_Y_CUTOFF: i64 = 606_526_500;

/// How far the initial batch's spawner pulls a high draw down, in
/// sub-units; the timer-driven spawner applies no such correction.
pub const STAR_FIRST_DROP: i64 = 406_526_500;

/// A star: a position and a persistent heading, mutated only by boundary
/// bounces.
#[derive(Clone, Copy, PartialEq, Eq, Structural, Debug)]
pub struct Star {
    pub position: Position,
    pub direction: Direction,
}

/// The star spawn timer.
#[derive(Clone, Copy, PartialEq, Eq, Structural, Debug)]
pub struct StarTimer {
    pub timer: SpawnTimer,
}

impl Default for StarTimer {
    /// A fresh repeating timer over the star spawn period.
    fn default() -> (t: StarTimer)
        ensures
            t.timer == (SpawnTimer { elapsed_ms: 0u64, period_ms: STAR_TIMER_MS, finished: false }),
            timer_wf(t.timer),
    {
        StarTimer { timer: SpawnTimer::from_period(STAR_TIMER_MS) }
    }
}

/// The invariant each stored star keeps: a bounded position and a
/// direction within one unit.
pub open spec fn star_wf(s: Star) -> bool {
    &&& pos_within(s.position, POS_LIMIT as int)
    &&& dir_within_unit(s.direction)
}

/// The star a set of draws yields: position from the first two draws,
/// heading from the last two, left un-normalized.
pub open spec fn star_of_draws(
    rx: u64,
    ry: u64,
    rdx: u64,
    rdy: u64,
    width: int,
    height: int,
    drop: int,
) -> Star {
    Star {
        position: spawn_position(rx, ry, width, height, STAR_Y_CUTOFF as int, drop),
        direction: Direction {
            x: ((rdx as int) % (DIR_UNIT as int)) as i64,
            y: ((rdy as int) % (DIR_UNIT as int)) as i64,
        },
    }
}

/// `s` is a star some set of draws yields for this play area and drop.
pub open spec fn spawned_star(s: Star, width: int, height: int, drop: int) -> bool {
    exists|rx: u64, ry: u64, rdx: u64, rdy: u64|
        s == #[trigger] star_of_draws(rx, ry, rdx, rdy, width, height, drop)
}

/// Builds the star a set of draws yields, exactly as [`star_of_draws`]
/// states it.
fn star_from_draws(
    rx: u64,
    ry: u64,
    rdx: u64,
    rdy: u64,
    width: i64,
    height: i64,
    drop: i64,
) -> (s: Star)
    requires
        1 <= width <= POS_LIMIT,
        1 <= height <= POS_LIMIT,
        0 <= drop <= STAR_Y_CUTOFF,
    ensures
        s == star_of_draws(rx, ry, rdx, rdy, width as int, height as int, drop as int),
        0 <= s.position.x < width,
        0 <= s.position.y < height,
        star_wf(s),
{
    let position = drawn_position(rx, ry, width, height, STAR_Y_CUTOFF, drop);
    let direction = Direction {
        x: (rdx % (DIR_UNIT as u64)) as i64,
        y: (rdy % (DIR_UNIT as u64)) as i64,
    };
    Star { position, direction }
}

/// Actor spawner for the initial batch: one star per batch slot, each at
/// a drawn position with an un-normalized drawn heading.
pub fn star(stars: &mut Vec<Star>, width: i64, height: i64)
    requires
        1 <= width <= POS_LIMIT,
        1 <= height <= POS_LIMIT,
    ensures
        final(stars)@.len() == old(stars)@.len() + STARS,
        final(stars)@.subrange(0, old(stars)@.len() as int) == old(stars)@,
        forall|i: int|
            old(stars)@.len() <= i < final(stars)@.len() ==> spawned_star(
                #[trigger] final(stars)@[i],
                width as int,
                height as int,
                STAR_FIRST_DROP as int,
            ) && star_wf(final(stars)@[i]),
{
    let base = stars.len();
    proof {
        assert(stars@.subrange(0, base as int) =~= stars@);
    }
    let mut k: usize = 0;
    while k < STARS
        invariant
            1 <= width <= POS_LIMIT,
            1 <= height <= POS_LIMIT,
            base == old(stars)@.len(),
            stars@.len() == base + k,
            k <= STARS,
            stars@.subrange(0, base as int) == old(stars)@,
            forall|i: int|
                base <= i < stars@.len() ==> spawned_star(
                    #[trigger] stars@[i],
                    width as int,
                    height as int,
                    STAR_FIRST_DROP as int,
                ) && star_wf(stars@[i]),
        decreases STARS - k,
    {
        let rx = rand::random::<u64>();
        let ry = rand::random::<u64>();
        let rdx = rand::random::<u64>();
        let rdy = rand::random::<u64>();
        let s = star_from_draws(rx, ry, rdx, rdy, width, height, STAR_FIRST_DROP);
        let ghost prev = stars@;
        stars.push(s);
        proof {
            assert(stars@.subrange(0, base as int) =~= prev.subrange(0, base as int));
            assert(spawned_star(s, width as int, height as int, STAR_FIRST_DROP as int)) by {
                assert(s == star_of_draws(
                    rx,
                    ry,
                    rdx,
                    rdy,
                    width as int,
                    height as int,
                    STAR_FIRST_DROP as int,
                ));
            }
        }
        k = k + 1;
    }
}

/// Actor mover: every star advances by its heading times the star speed
/// times the elapsed time.
pub fn star_run(stars: &mut Vec<Star>, dt_ms: u64)
    requires
        forall|i: int| 0 <= i < old(stars)@.len() ==> star_wf(#[trigger] old(stars)@[i]),
        dt_ms <= DT_LIMIT_MS,
    ensures
        final(stars)@.len() == old(stars)@.len(),
        forall|i: int|
            0 <= i < old(stars)@.len() ==> {
                let s = old(stars)@[i];
                let f = #[trigger] final(stars)@[i];
                &&& f.position.x == s.position.x + s.direction.x * STAR_SPEED * dt_ms
                &&& f.position.y == s.position.y + s.direction.y * STAR_SPEED * dt_ms
                &&& f.direction == s.direction
                &&& pos_within(f.position, MOVED_LIMIT as int)
                &&& dir_within_unit(f.direction)
            },
{
    let n = stars.len();
    let mut i: usize = 0;
    while i < n
        invariant
            n == stars@.len(),
            n == old(stars)@.len(),
            i <= n,
            dt_ms <= DT_LIMIT_MS,
            forall|j: int| i <= j < n ==> #[trigger] stars@[j] == old(stars)@[j],
            forall|j: int| 0 <= j < n ==> star_wf(#[trigger] old(stars)@[j]),
            forall|j: int|
                0 <= j < i ==> {
                    let s = old(stars)@[j];
                    let f = #[trigger] stars@[j];
                    &&& f.position.x == s.position.x + s.direction.x * STAR_SPEED * dt_ms
                    &&& f.position.y == s.position.y + s.direction.y * STAR_SPEED * dt_ms
                    &&& f.direction == s.direction
                    &&& pos_within(f.position, MOVED_LIMIT as int)
                },
        decreases n - i,
    {
        let s = stars[i];
        let moved = Star { position: translate(s.position, s.direction, STAR_SPEED, dt_ms), direction: s.direction };
        stars.set(i, moved);
        i = i + 1;
    }
}

/// How many of these stars the confiner bounces in this play area.
pub open spec fn star_bounce_count(s: Seq<Star>, w: int, h: int) -> int
    decreases s.len(),
{
    if s.len() == 0 {
        0
    } else {
        star_bounce_count(s.drop_last(), w, h) + if bounced(
            s.last().position,
            (STAR_SIZE / 2) as int,
            w,
            h,
        ) {
            1int
        } else {
            0int
        }
    }
}

/// Boundary confiner: each star's position is clamped to the play area
/// and its heading reflected on every crossed axis; each bounce queues the
/// first pluck cue — the star's two cue choices coincide.
pub fn confine_star(stars: &mut Vec<Star>, width: i64, height: i64, audio: &mut Vec<AudioCue>)
    requires
        STAR_SIZE <= width <= POS_LIMIT,
        STAR_SIZE <= height <= POS_LIMIT,
        forall|i: int| 0 <= i < old(stars)@.len() ==> dir_within_unit(#[trigger] old(stars)@[i].direction),
    ensures
        0 <= star_bounce_count(old(stars)@, width as int, height as int) <= old(stars)@.len(),
        final(stars)@.len() == old(stars)@.len(),
        forall|i: int|
            0 <= i < old(stars)@.len() ==> {
                let s = old(stars)@[i];
                let f = #[trigger] final(stars)@[i];
                &&& f.position == confined_position(s.position, (STAR_SIZE / 2) as int, width as int, height as int)
                &&& f.direction == reflected_direction(s.position, s.direction, (STAR_SIZE / 2) as int, width as int, height as int)
                &&& star_wf(f)
            },
        cues_appended(
            old(audio)@,
            final(audio)@,
            star_bounce_count(old(stars)@, width as int, height as int),
            AudioCue::Pluck001,
        ),
{
    let half: i64 = STAR_SIZE / 2;
    let min_x = half;
    let max_x = width - half;
    let min_y = half;
    let max_y = height - half;
    let n = stars.len();
    proof {
        assert(old(audio)@.subrange(0, old(audio)@.len() as int) =~= old(audio)@);
        assert(star_bounce_count(old(stars)@.subrange(0, 0), width as int, height as int) == 0);
    }
    let mut i: usize = 0;
    while i < n
        invariant
            n == stars@.len(),
            n == old(stars)@.len(),
            i <= n,
            0 <= star_bounce_count(
                old(stars)@.subrange(0, i as int),
                width as int,
                height as int,
            ) <= i,
            half == (STAR_SIZE / 2) as int,
            min_x == half && max_x == width - half && min_y == half && max_y == height - half,
            STAR_SIZE <= width <= POS_LIMIT,
            STAR_SIZE <= height <= POS_LIMIT,
            forall|j: int| i <= j < n ==> #[trigger] stars@[j] == old(stars)@[j],
            forall|j: int| 0 <= j < n ==> dir_within_unit(#[trigger] old(stars)@[j].direction),
            forall|j: int|
                0 <= j < i ==> {
                    let s = old(stars)@[j];
                    let f = #[trigger] stars@[j];
                    &&& f.position == confined_position(s.position, (STAR_SIZE / 2) as int, width as int, height as int)
                    &&& f.direction == reflected_direction(s.position, s.direction, (STAR_SIZE / 2) as int, width as int, height as int)
                    &&& star_wf(f)
                },
            cues_appended(
                old(audio)@,
                audio@,
                star_bounce_count(old(stars)@.subrange(0, i as int), width as int, height as int),
                AudioCue::Pluck001,
            ),
        decreases n - i,
    {
        let s = stars[i];
        let (px, dx, out_x) = confine_axis(s.position.x, min_x, max_x, s.direction.x);
        let (py, dy, out_y) = confine_axis(s.position.y, min_y, max_y, s.direction.y);
        let confined = Star { position: Position { x: px, y: py }, direction: Direction { x: dx, y: dy } };
        stars.set(i, confined);
        if out_x || out_y {
            audio.push(AudioCue::Pluck001);
        }
        proof {
            let sub1 = old(stars)@.subrange(0, i + 1);
            assert(sub1.drop_last() =~= old(stars)@.subrange(0, i as int));
            assert(sub1.last() == old(stars)@[i as int]);
            assert(audio@.subrange(0, old(audio)@.len() as int) =~= old(audio)@);
        }
        i = i + 1;
    }
    proof {
        assert(old(stars)@.subrange(0, n as int) =~= old(stars)@);
    }
}

/// Advances the star spawn timer by the frame's elapsed time.
pub fn tick_spawn_star_timer(t: &mut StarTimer, dt_ms: u64)
    requires
        timer_wf(old(t).timer),
        dt_ms <= DT_LIMIT_MS,
    ensures
        final(t).timer == ticked(old(t).timer, dt_ms),
        timer_wf(final(t).timer),
{
    t.timer.tick(dt_ms);
}

/// Timer-driven spawner: when the timer fired this tick, one more star
/// joins, at a drawn position (no height correction here) with an
/// un-normalized drawn heading.
pub fn spawn_star_over_timer(t: &StarTimer, stars: &mut Vec<Star>, width: i64, height: i64)
    requires
        1 <= width <= POS_LIMIT,
        1 <= height <= POS_LIMIT,
    ensures
        !t.timer.finished ==> final(stars)@ == old(stars)@,
        t.timer.finished ==> {
            &&& final(stars)@.len() == old(stars)@.len() + 1
            &&& final(stars)@.subrange(0, old(stars)@.len() as int) == old(stars)@
            &&& spawned_star(final(stars)@.last(), width as int, height as int, 0)
            &&& star_wf(final(stars)@.last())
        },
{
    if t.timer.finished() {
        let rx = rand::random::<u64>();
        let ry = rand::random::<u64>();
        let rdx = rand::random::<u64>();
        let rdy = rand::random::<u64>();
        let ghost prev = stars@;
        let s = star_from_draws(rx, ry, rdx, rdy, width, height, 0);
        stars.push(s);
        proof {
            assert(stars@.subrange(0, prev.len() as int) =~= prev);
            assert(spawned_star(s, width as int, height as int, 0)) by {
                assert(s == star_of_draws(rx, ry, rdx, rdy, width as int, height as int, 0));
            }
        }
    }
}

} // verus!
