//! The player subsystem: spawner, input-driven mover, confiner, the two
//! collision detectors, the score counter and the game-over signal.

use vstd::prelude::*;

use crate::audio::{bounce_cue, cues_appended, plucks_appended, AudioCue};
use crate::enemy::{Enemy, ENEMY_SIZE};
use crate::geometry::{
    bounced, circles_overlap, confined_position, overlaps, pos_within, translate, Direction,
    Position, DIR_UNIT, DT_LIMIT_MS, MOVED_LIMIT, POS_LIMIT,
};
use crate::star::{star_wf, Star, STAR_SIZE};

verus! {

/// Player speed, in world units per second.
pub const PLAYER_SPEED: i64 = 500;

/// Player diameter, in position sub-units.
pub const PLAYER_SIZE: i64 = 64_000_000;

/// The score counter: how many stars the player has collected.  It only
/// ever grows, and only a player-star overlap grows it.
#[derive(Clone, Copy, PartialEq, Eq, Structural, Debug)]
pub struct Kill {
    pub value: u32,
}

impl Default for Kill {
    /// The score starts at zero.
    fn default() -> (k: Kill)
        ensures
            k.value == 0,
    {
        Kill { value: 0 }
    }
}

/// The player: a position only — its heading is read fresh from the held
/// keys every tick, never stored.
#[derive(Clone, Copy, PartialEq, Eq, Structural, Debug)]
pub struct Player {
    pub position: Position,
}

/// The one-shot game-over signal, carrying the score at the moment of the
/// fatal overlap.
#[derive(Clone, Copy, PartialEq, Eq, Structural, Debug)]
pub struct GameOver {
    pub score: u32,
}

/// The four movement keys held this tick.
#[derive(Clone, Copy, PartialEq, Eq, Structural, Debug)]
pub struct KeyInput {
    pub left: bool,
    pub right: bool,
    pub up: bool,
    pub down: bool,
}

/// Actor spawner for the player: one player at the centre of the play
/// area.
pub fn player(width: i64, height: i64) -> (p: Player)
    requires
        0 <= width <= POS_LIMIT,
        0 <= height <= POS_LIMIT,
    ensures
        p.position.x == width as int / 2,
        p.position.y == height as int / 2,
        pos_within(p.position, POS_LIMIT as int),
{
    Player { position: Position { x: width / 2, y: height / 2 } }
}

/// The unit heading the held keys give: each key overwrites the one
/// before it in the order left, right, up, down, so the last held key
/// evaluated wins; the raw magnitude collapses under normalization.
pub open spec fn key_direction(k: KeyInput) -> Direction {
    if k.down {
        Direction { x: 0, y: (-DIR_UNIT) as i64 }
    } else if k.up {
        Direction { x: 0, y: DIR_UNIT }
    } else if k.right {
        Direction { x: DIR_UNIT, y: 0 }
    } else if k.left {
        Direction { x: (-DIR_UNIT) as i64, y: 0 }
    } else {
        Direction { x: 0, y: 0 }
    }
}

/// Actor mover for the player: the heading comes fresh from the held
/// keys, and the displacement is that heading times the player speed
/// times the elapsed time.
pub fn player_run(p: &mut Player, keys: &KeyInput, dt_ms: u64)
    requires
        pos_within(old(p).position, POS_LIMIT as int),
        dt_ms <= DT_LIMIT_MS,
    ensures
        final(p).position.x == old(p).position.x + key_direction(*keys).x * PLAYER_SPEED * dt_ms,
        final(p).position.y == old(p).position.y + key_direction(*keys).y * PLAYER_SPEED * dt_ms,
        pos_within(final(p).position, MOVED_LIMIT as int),
{
    let mut direction = Direction { x: 0, y: 0 };
    if keys.left {
        direction = Direction { x: -DIR_UNIT, y: 0 };
    }
    if keys.right {
        direction = Direction { x: DIR_UNIT, y: 0 };
    }
    if keys.up {
        direction = Direction { x: 0, y: DIR_UNIT };
    }
    if keys.down {
        direction = Direction { x: 0, y: -DIR_UNIT };
    }
    p.position = translate(p.position, direction, PLAYER_SPEED, dt_ms);
}

/// Boundary confiner for the player: clamps only — the player stores no
/// direction to reflect — and a bounce queues one of the two pluck cues,
/// picked by a draw.
pub fn confine_player(p: &mut Player, width: i64, height: i64, audio: &mut Vec<AudioCue>)
    requires
        PLAYER_SIZE <= width <= POS_LIMIT,
        PLAYER_SIZE <= height <= POS_LIMIT,
    ensures
        final(p).position == confined_position(
            old(p).position,
            (PLAYER_SIZE / 2) as int,
            width as int,
            height as int,
        ),
        pos_within(final(p).position, POS_LIMIT as int),
        plucks_appended(
            old(audio)@,
            final(audio)@,
            if bounced(
                old(p).position,
                (PLAYER_SIZE / 2) as int,
                width as int,
                height as int,
            ) {
                1int
            } else {
                0int
            },
        ),
{
    let half: i64 = PLAYER_SIZE / 2;
    let min_x = half;
    let max_x = width - half;
    let min_y = half;
    let max_y = height - half;
    let mut translation = p.position;
    let mut change_direction = false;
    if translation.x < min_x || translation.x > max_x {
        change_direction = true;
    }
    if translation.y < min_y || translation.y > max_y {
        change_direction = true;
    }
    if translation.x < min_x {
        translation.x = min_x;
    }
    if translation.x > max_x {
        translation.x = max_x;
    }
    if translation.y < min_y {
        translation.y = min_y;
    }
    if translation.y > max_y {
        translation.y = max_y;
    }
    proof {
        assert(old(audio)@.subrange(0, old(audio)@.len() as int) =~= old(audio)@);
    }
    if change_direction {
        let r = rand::random::<u64>();
        let ghost prev = audio@;
        audio.push(bounce_cue(r));
        proof {
            assert(audio@.subrange(0, prev.len() as int) =~= prev);
        }
    }
    p.position = translation;
}

/// How many of these enemies overlap a player at `pp`.
pub open spec fn overlapping_enemy_count(pp: Position, enemies: Seq<Enemy>) -> int
    decreases enemies.len(),
{
    if enemies.len() == 0 {
        0
    } else {
        overlapping_enemy_count(pp, enemies.drop_last()) + if circles_overlap(
            pp,
            enemies.last().position,
            (PLAYER_SIZE / 2) as int,
            (ENEMY_SIZE / 2) as int,
        ) {
            1int
        } else {
            0int
        }
    }
}

/// Collision detector, player against enemies: every enemy within the
/// combined radius produces exactly one game-over signal carrying the
/// score as it stood before the pass, and one destruction cue; the
/// verdict says whether any overlap was found, so the driver can remove
/// the player once the pass is over.
pub fn enemy_hit_player(
    p: &Player,
    enemies: &Vec<Enemy>,
    score: &Kill,
    events: &mut Vec<GameOver>,
    audio: &mut Vec<AudioCue>,
) -> (dead: bool)
    requires
        pos_within(p.position, POS_LIMIT as int),
        forall|i: int|
            0 <= i < enemies@.len() ==> pos_within(
                (#[trigger] enemies@[i]).position,
                POS_LIMIT as int,
            ),
    ensures
        0 <= overlapping_enemy_count(p.position, enemies@) <= enemies@.len(),
        dead == exists|i: int|
            0 <= i < enemies@.len() && circles_overlap(
                p.position,
                (#[trigger] enemies@[i]).position,
                (PLAYER_SIZE / 2) as int,
                (ENEMY_SIZE / 2) as int,
            ),
        final(events)@.len() == old(events)@.len() + overlapping_enemy_count(p.position, enemies@),
        final(events)@.subrange(0, old(events)@.len() as int) == old(events)@,
        forall|i: int|
            old(events)@.len() <= i < final(events)@.len() ==> #[trigger] final(events)@[i]
                == (GameOver { score: score.value }),
        cues_appended(
            old(audio)@,
            final(audio)@,
            overlapping_enemy_count(p.position, enemies@),
            AudioCue::ExplosionCrunch,
        ),
{
    let n = enemies.len();
    proof {
        assert(old(events)@.subrange(0, old(events)@.len() as int) =~= old(events)@);
        assert(old(audio)@.subrange(0, old(audio)@.len() as int) =~= old(audio)@);
        assert(overlapping_enemy_count(p.position, enemies@.subrange(0, 0)) == 0);
    }
    let mut dead = false;
    let mut i: usize = 0;
    while i < n
        invariant
            n == enemies@.len(),
            i <= n,
            pos_within(p.position, POS_LIMIT as int),
            forall|j: int|
                0 <= j < n ==> pos_within((#[trigger] enemies@[j]).position, POS_LIMIT as int),
            0 <= overlapping_enemy_count(p.position, enemies@.subrange(0, i as int)) <= i,
            dead == exists|j: int|
                0 <= j < i && circles_overlap(
                    p.position,
                    (#[trigger] enemies@[j]).position,
                    (PLAYER_SIZE / 2) as int,
                    (ENEMY_SIZE / 2) as int,
                ),
            events@.len() == old(events)@.len() + overlapping_enemy_count(
                p.position,
                enemies@.subrange(0, i as int),
            ),
            events@.subrange(0, old(events)@.len() as int) == old(events)@,
            forall|j: int|
                old(events)@.len() <= j < events@.len() ==> #[trigger] events@[j] == (GameOver {
                    score: score.value,
                }),
            cues_appended(
                old(audio)@,
                audio@,
                overlapping_enemy_count(p.position, enemies@.subrange(0, i as int)),
                AudioCue::ExplosionCrunch,
            ),
        decreases n - i,
    {
        let e = enemies[i];
        if overlaps(p.position, e.position, PLAYER_SIZE / 2, ENEMY_SIZE / 2) {
            audio.push(AudioCue::ExplosionCrunch);
            events.push(GameOver { score: score.value });
            dead = true;
        }
        proof {
            let sub1 = enemies@.subrange(0, i + 1);
            assert(sub1.drop_last() =~= enemies@.subrange(0, i as int));
            assert(sub1.last() == enemies@[i as int]);
            assert(events@.subrange(0, old(events)@.len() as int) =~= old(events)@);
            assert(audio@.subrange(0, old(audio)@.len() as int) =~= old(audio)@);
        }
        i = i + 1;
    }
    proof {
        assert(enemies@.subrange(0, n as int) =~= enemies@);
    }
    dead
}

/// Every count of overlapping enemies lies between zero and the field's
/// size.
pub proof fn lemma_overlap_count_bounds(pp: Position, enemies: Seq<Enemy>)
    ensures
        0 <= overlapping_enemy_count(pp, enemies) <= enemies.len(),
    decreases enemies.len(),
{
    if enemies.len() > 0 {
        lemma_overlap_count_bounds(pp, enemies.drop_last());
    }
}

/// Law: an enemy within the combined radius makes the signal count
/// positive, so a fatal pass emits at least one game-over signal.
pub proof fn lemma_overlap_yields_signal(pp: Position, enemies: Seq<Enemy>, i: int)
    requires
        0 <= i < enemies.len(),
        circles_overlap(
            pp,
            enemies[i].position,
            (PLAYER_SIZE / 2) as int,
            (ENEMY_SIZE / 2) as int,
        ),
    ensures
        overlapping_enemy_count(pp, enemies) >= 1,
    decreases enemies.len(),
{
    if i == enemies.len() - 1 {
        lemma_overlap_count_bounds(pp, enemies.drop_last());
    } else {
        assert(enemies.drop_last()[i] == enemies[i]);
        lemma_overlap_yields_signal(pp, enemies.drop_last(), i);
    }
}

/// Law: a single enemy within the combined radius yields exactly one
/// game-over signal — the signal count over a one-enemy field is one.
pub proof fn lemma_single_overlap_single_signal(pp: Position, e: Enemy)
    requires
        circles_overlap(pp, e.position, (PLAYER_SIZE / 2) as int, (ENEMY_SIZE / 2) as int),
    ensures
        overlapping_enemy_count(pp, seq![e]) == 1,
{
    let s = seq![e];
    assert(overlapping_enemy_count(pp, Seq::<Enemy>::empty()) == 0);
    assert(s.drop_last() =~= Seq::<Enemy>::empty());
    assert(s.last() == e);
    assert(overlapping_enemy_count(pp, s) == overlapping_enemy_count(pp, s.drop_last()) + 1);
}

/// How many of these stars overlap a player at `pp`.
pub open spec fn star_hit_count(pp: Position, stars: Seq<Star>) -> int
    decreases stars.len(),
{
    if stars.len() == 0 {
        0
    } else {
        star_hit_count(pp, stars.drop_last()) + if circles_overlap(
            pp,
            stars.last().position,
            (PLAYER_SIZE / 2) as int,
            (STAR_SIZE / 2) as int,
        ) {
            1int
        } else {
            0int
        }
    }
}

/// The stars that survive a collision pass against a player at `pp`: the
/// non-overlapping ones, in their order of appearance.
pub open spec fn retained_stars(pp: Position, stars: Seq<Star>) -> Seq<Star>
    decreases stars.len(),
{
    if stars.len() == 0 {
        Seq::empty()
    } else {
        let rest = retained_stars(pp, stars.drop_last());
        if circles_overlap(
            pp,
            stars.last().position,
            (PLAYER_SIZE / 2) as int,
            (STAR_SIZE / 2) as int,
        ) {
            rest
        } else {
            rest.push(stars.last())
        }
    }
}

/// Collision detector, player against stars: every star within the
/// combined radius is removed, adds exactly one to the score and queues
/// one collection cue; the score never decreases.
pub fn player_hit_star(p: &Player, stars: &mut Vec<Star>, kill: &mut Kill, audio: &mut Vec<AudioCue>)
    requires
        pos_within(p.position, POS_LIMIT as int),
        forall|i: int| 0 <= i < old(stars)@.len() ==> star_wf(#[trigger] old(stars)@[i]),
        old(kill).value + old(stars)@.len() <= u32::MAX,
    ensures
        0 <= star_hit_count(p.position, old(stars)@) <= old(stars)@.len(),
        final(kill).value == old(kill).value + star_hit_count(p.position, old(stars)@),
        final(kill).value >= old(kill).value,
        final(stars)@ == retained_stars(p.position, old(stars)@),
        forall|i: int| 0 <= i < final(stars)@.len() ==> star_wf(#[trigger] final(stars)@[i]),
        cues_appended(
            old(audio)@,
            final(audio)@,
            star_hit_count(p.position, old(stars)@),
            AudioCue::LaserLarge,
        ),
{
    let n = stars.len();
    proof {
        assert(old(audio)@.subrange(0, old(audio)@.len() as int) =~= old(audio)@);
        assert(star_hit_count(p.position, old(stars)@.subrange(0, 0)) == 0);
        assert(retained_stars(p.position, old(stars)@.subrange(0, 0)) =~= Seq::<Star>::empty());
    }
    let mut kept: Vec<Star> = Vec::new();
    let mut collected: u32 = 0;
    let mut i: usize = 0;
    while i < n
        invariant
            n == stars@.len(),
            stars@ == old(stars)@,
            i <= n,
            pos_within(p.position, POS_LIMIT as int),
            forall|j: int| 0 <= j < n ==> star_wf(#[trigger] stars@[j]),
            old(kill).value + n <= u32::MAX,
            kill.value == old(kill).value,
            0 <= star_hit_count(p.position, stars@.subrange(0, i as int)) <= i,
            collected == star_hit_count(p.position, stars@.subrange(0, i as int)),
            kept@ == retained_stars(p.position, stars@.subrange(0, i as int)),
            forall|j: int| 0 <= j < kept@.len() ==> star_wf(#[trigger] kept@[j]),
            cues_appended(
                old(audio)@,
                audio@,
                star_hit_count(p.position, stars@.subrange(0, i as int)),
                AudioCue::LaserLarge,
            ),
        decreases n - i,
    {
        let s = stars[i];
        if overlaps(p.position, s.position, PLAYER_SIZE / 2, STAR_SIZE / 2) {
            collected = collected + 1;
            audio.push(AudioCue::LaserLarge);
        } else {
            kept.push(s);
        }
        proof {
            let sub1 = stars@.subrange(0, i + 1);
            assert(sub1.drop_last() =~= stars@.subrange(0, i as int));
            assert(sub1.last() == stars@[i as int]);
            assert(audio@.subrange(0, old(audio)@.len() as int) =~= old(audio)@);
        }
        i = i + 1;
    }
    proof {
        assert(stars@.subrange(0, n as int) =~= stars@);
    }
    kill.value = kill.value + collected;
    *stars = kept;
}

} // verus!
