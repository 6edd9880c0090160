//! Audio cues: the core decides *which* cue an event asks for; playing it
//! is left to the embedding program.

use vstd::prelude::*;

verus! {

/// The cues the game can ask for: two plucks for boundary bounces, a
/// crunch for the player's destruction, a laser for a collected star.
#[derive(Clone, Copy, PartialEq, Eq, Structural, Debug)]
pub enum AudioCue {
    Pluck001,
    Pluck002,
    ExplosionCrunch,
    LaserLarge,
}

/// `c` is one of the two bounce plucks.
pub open spec fn is_pluck(c: AudioCue) -> bool {
    c == AudioCue::Pluck001 || c == AudioCue::Pluck002
}

/// The midpoint of the `u64` range: a draw above it is a coin flip's
/// heads, mirroring a unit draw above one half.
pub const COIN_THRESHOLD: u64 = 9_223_372_036_854_775_807;

/// The bounce cue a draw picks.
pub open spec fn coin_cue(r: u64) -> AudioCue {
    if r > COIN_THRESHOLD {
        AudioCue::Pluck001
    } else {
        AudioCue::Pluck002
    }
}

/// Picks one of the two bounce plucks from a draw.
pub fn bounce_cue(r: u64) -> (c: AudioCue)
    ensures
        c == coin_cue(r),
        is_pluck(c),
{
    if r > COIN_THRESHOLD {
        AudioCue::Pluck001
    } else {
        AudioCue::Pluck002
    }
}

/// The cue outbox grew by `n` entries, all of them bounce plucks, and the
/// entries already queued stayed as they were.
pub open spec fn plucks_appended(old_a: Seq<AudioCue>, new_a: Seq<AudioCue>, n: int) -> bool {
    &&& new_a.len() == old_a.len() + n
    &&& new_a.subrange(0, old_a.len() as int) == old_a
    &&& forall|i: int| old_a.len() <= i < new_a.len() ==> is_pluck(#[trigger] new_a[i])
}

/// The cue outbox grew by `n` copies of one cue, and the entries already
/// queued stayed as they were.
pub open spec fn cues_appended(old_a: Seq<AudioCue>, new_a: Seq<AudioCue>, n: int, cue: AudioCue) -> bool {
    &&& new_a.len() == old_a.len() + n
    &&& new_a.subrange(0, old_a.len() as int) == old_a
    &&& forall|i: int| old_a.len() <= i < new_a.len() ==> #[trigger] new_a[i] == cue
}

} // verus!
