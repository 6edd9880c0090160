use star_chase::audio::{bounce_cue, AudioCue, COIN_THRESHOLD};
use star_chase::geometry::{
    confine_axis, confine_axis_plain, drawn_position, isqrt, overlaps, scale_to_unit, translate,
    Direction, Position,
};
use star_chase::timer::SpawnTimer;

#[test]
fn mover_exact_displacement() {
    let p = Position { x: 100, y: 200 };
    let d = Direction { x: 1000, y: -250 };
    let q = translate(p, d, 500, 2000);
    assert_eq!(q.x, 100 + 1000 * 500 * 2000);
    assert_eq!(q.y, 200 - 250 * 500 * 2000);
}

#[test]
fn mover_zero_dt_stands_still() {
    let p = Position { x: 123_456, y: -789 };
    let d = Direction { x: 1000, y: 1000 };
    let q = translate(p, d, 10_000, 0);
    assert_eq!(q.x, 123_456);
    assert_eq!(q.y, -789);
}

#[test]
fn confine_axis_clamps_to_nearest_bound_and_flips() {
    // beyond the upper bound: clamp down, flip the direction component
    let (v, d, out) = confine_axis(850_000_000, 32_000_000, 768_000_000, 500);
    assert_eq!(v, 768_000_000);
    assert_eq!(d, -500);
    assert!(out);
    // below the lower bound: clamp up, flip
    let (v, d, out) = confine_axis(-5, 32_000_000, 768_000_000, -300);
    assert_eq!(v, 32_000_000);
    assert_eq!(d, 300);
    assert!(out);
    // exactly on the bound: inside, untouched
    let (v, d, out) = confine_axis(32_000_000, 32_000_000, 768_000_000, 700);
    assert_eq!(v, 32_000_000);
    assert_eq!(d, 700);
    assert!(!out);
}

#[test]
fn confine_axis_plain_clamps_only() {
    let (v, out) = confine_axis_plain(900_000_000, 32_000_000, 768_000_000);
    assert_eq!(v, 768_000_000);
    assert!(out);
    let (v, out) = confine_axis_plain(400_000_000, 32_000_000, 768_000_000);
    assert_eq!(v, 400_000_000);
    assert!(!out);
}

#[test]
fn overlap_is_strictly_below_combined_radius() {
    let p = Position { x: 0, y: 0 };
    // centre distance exactly the combined radius: no overlap
    let q = Position { x: 64_000_000, y: 0 };
    assert!(!overlaps(p, q, 32_000_000, 32_000_000));
    // one sub-unit closer: overlap
    let q = Position { x: 63_999_999, y: 0 };
    assert!(overlaps(p, q, 32_000_000, 32_000_000));
}

#[test]
fn isqrt_values() {
    assert_eq!(isqrt(0), 0);
    assert_eq!(isqrt(1), 1);
    assert_eq!(isqrt(2), 1);
    assert_eq!(isqrt(999_999), 999);
    assert_eq!(isqrt(1_000_000), 1000);
    assert_eq!(isqrt(2_000_000), 1414);
}

#[test]
fn scale_to_unit_values() {
    // a 3-4-5 triangle scales exactly
    let d = scale_to_unit(3, 4);
    assert_eq!(d.x, 600);
    assert_eq!(d.y, 800);
    // the zero pair stays zero
    let d = scale_to_unit(0, 0);
    assert_eq!(d.x, 0);
    assert_eq!(d.y, 0);
    // the smallest diagonal draw still lands near unit length
    let d = scale_to_unit(1, 1);
    assert_eq!(d.x, 707);
    assert_eq!(d.y, 707);
    // each component stays within one unit, and every nonzero heading
    // keeps its squared length within a thousandth of one unit's square
    for &(x, y) in &[(1, 1), (1, 999), (500, 500), (999, 999), (7, 0)] {
        let d = scale_to_unit(x, y);
        assert!(0 <= d.x && d.x <= 1000 && 0 <= d.y && d.y <= 1000);
        let len2 = d.x * d.x + d.y * d.y;
        assert!(995_999 <= len2 && len2 <= 1_002_000);
    }
}

#[test]
fn bounce_cue_threshold() {
    assert_eq!(bounce_cue(COIN_THRESHOLD), AudioCue::Pluck002);
    assert_eq!(bounce_cue(COIN_THRESHOLD + 1), AudioCue::Pluck001);
    assert_eq!(bounce_cue(0), AudioCue::Pluck002);
    assert_eq!(bounce_cue(u64::MAX), AudioCue::Pluck001);
}

#[test]
fn spawn_timer_fires_and_keeps_remainder() {
    let mut t = SpawnTimer::from_period(100);
    t.tick(250);
    assert!(t.finished);
    assert_eq!(t.elapsed_ms, 50);
    t.tick(40);
    assert!(!t.finished);
    assert_eq!(t.elapsed_ms, 90);
    t.tick(10);
    assert!(t.finished);
    assert_eq!(t.elapsed_ms, 0);
}

#[test]
fn drawn_position_reduces_draws_and_corrects_height() {
    // a drawn height above the cutoff is pulled down by the drop
    let p = drawn_position(100_000_000, 650_000_000, 800_000_000, 700_000_000, 606_526_500, 206_526_500);
    assert_eq!(p.x, 100_000_000);
    assert_eq!(p.y, 650_000_000 - 206_526_500);
    // a drawn height below the cutoff stays
    let p = drawn_position(100_000_000, 500_000_000, 800_000_000, 700_000_000, 606_526_500, 206_526_500);
    assert_eq!(p.y, 500_000_000);
    // a zero drop leaves even a high draw alone
    let p = drawn_position(100_000_000, 650_000_000, 800_000_000, 700_000_000, 606_526_500, 0);
    assert_eq!(p.y, 650_000_000);
}
