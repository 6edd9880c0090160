//! Plane geometry for the arcade core: positions, directions, the mover
//! step, boundary confinement and the circle-overlap test.
//!
//! Positions are stored in sub-units ([`SUB_UNITS`] sub-units to one world
//! unit) and directions in milli-units ([`DIR_UNIT`] milli-units to a full
//! unit component), so that one mover step — direction times speed times
//! elapsed milliseconds — is exact integer arithmetic: milli times milli
//! is micro, which is the position scale.

use vstd::prelude::*;

verus! {

/// Position sub-units in one world unit.
pub const SUB_UNITS: i64 = 1_000_000;

/// Direction milli-units in a full unit component.
pub const DIR_UNIT: i64 = 1000;

/// Largest coordinate magnitude, in sub-units, of a confined or freshly
/// spawned actor.
pub const POS_LIMIT: i64 = 1_000_000_000_000_000;

/// Largest coordinate magnitude, in sub-units, right after a mover step
/// and before confinement.
pub const MOVED_LIMIT: i64 = 2_000_000_000_000_000;

/// Largest speed an actor kind may declare, in world units per second.
pub const SPEED_LIMIT: i64 = 10_000;

/// Longest elapsed time one frame may report, in milliseconds.
pub const DT_LIMIT_MS: u64 = 86_400_000;

/// A point of the play area, in sub-units.
#[derive(Clone, Copy, PartialEq, Eq, Structural, Debug)]
pub struct Position {
    pub x: i64,
    pub y: i64,
}

/// A stored heading, in milli-units of a unit vector.
#[derive(Clone, Copy, PartialEq, Eq, Structural, Debug)]
pub struct Direction {
    pub x: i64,
    pub y: i64,
}

/// Both coordinates of `p` lie within `limit` sub-units of the origin.
pub open spec fn pos_within(p: Position, limit: int) -> bool {
    &&& -limit <= p.x <= limit
    &&& -limit <= p.y <= limit
}

/// Both components of `d` lie within one unit, the invariant every stored
/// direction keeps: a normalized heading never exceeds it, and a reflection
/// only changes signs.
pub open spec fn dir_within_unit(d: Direction) -> bool {
    &&& -DIR_UNIT <= d.x <= DIR_UNIT
    &&& -DIR_UNIT <= d.y <= DIR_UNIT
}

/// One mover step: displacement is direction times speed times elapsed
/// time, added to the position, exactly.
pub fn translate(p: Position, d: Direction, speed: i64, dt_ms: u64) -> (q: Position)
    requires
        pos_within(p, POS_LIMIT as int),
        dir_within_unit(d),
        0 <= speed <= SPEED_LIMIT,
        dt_ms <= DT_LIMIT_MS,
    ensures
        q.x == p.x + d.x * speed * dt_ms,
        q.y == p.y + d.y * speed * dt_ms,
        pos_within(q, MOVED_LIMIT as int),
{
    proof {
        assert(-10_000_000 <= d.x * speed <= 10_000_000) by (nonlinear_arith)
            requires
                -1000 <= d.x <= 1000,
                0 <= speed <= 10_000,
        ;
        assert(-10_000_000 <= d.y * speed <= 10_000_000) by (nonlinear_arith)
            requires
                -1000 <= d.y <= 1000,
                0 <= speed <= 10_000,
        ;
        assert(-1000_000_000_000_000 <= (d.x * speed) * dt_ms <= 1000_000_000_000_000)
            by (nonlinear_arith)
            requires
                -10_000_000 <= d.x * speed <= 10_000_000,
                0 <= dt_ms <= 86_400_000,
        ;
        assert(-1000_000_000_000_000 <= (d.y * speed) * dt_ms <= 1000_000_000_000_000)
            by (nonlinear_arith)
            requires
                -10_000_000 <= d.y * speed <= 10_000_000,
                0 <= dt_ms <= 86_400_000,
        ;
    }
    let step_x: i64 = d.x * speed * (dt_ms as i64);
    let step_y: i64 = d.y * speed * (dt_ms as i64);
    Position { x: p.x + step_x, y: p.y + step_y }
}

/// The value of `v` pulled into `[lo, hi]`, for `lo <= hi`.
pub open spec fn clamped(v: int, lo: int, hi: int) -> int {
    if v < lo {
        lo
    } else if v > hi {
        hi
    } else {
        v
    }
}

/// `v` lies outside `[lo, hi]` on this axis.
pub open spec fn out_of_range(v: int, lo: int, hi: int) -> bool {
    v < lo || v > hi
}

/// One confiner axis for an actor without a stored direction: clamp only,
/// and report whether the bound was crossed.
pub fn confine_axis_plain(v: i64, lo: i64, hi: i64) -> (r: (i64, bool))
    requires
        lo <= hi,
    ensures
        r.0 == clamped(v as int, lo as int, hi as int),
        r.1 == out_of_range(v as int, lo as int, hi as int),
        lo <= r.0 <= hi,
{
    let mut w: i64 = v;
    let mut crossed: bool = false;
    if w < lo {
        w = lo;
        crossed = true;
    }
    if w > hi {
        w = hi;
        crossed = true;
    }
    (w, crossed)
}

/// One confiner axis for an actor with a stored direction: clamp the
/// coordinate and negate the direction component when the bound was
/// crossed.
pub fn confine_axis(v: i64, lo: i64, hi: i64, dir: i64) -> (r: (i64, i64, bool))
    requires
        lo <= hi,
        -DIR_UNIT <= dir <= DIR_UNIT,
    ensures
        r.0 == clamped(v as int, lo as int, hi as int),
        r.1 == if out_of_range(v as int, lo as int, hi as int) {
            -dir as int
        } else {
            dir as int
        },
        r.2 == out_of_range(v as int, lo as int, hi as int),
        lo <= r.0 <= hi,
        -DIR_UNIT <= r.1 <= DIR_UNIT,
{
    if v < lo {
        (lo, -dir, true)
    } else if v > hi {
        (hi, -dir, true)
    } else {
        (v, dir, false)
    }
}

/// The position the confiner leaves for an actor of half-size `half` in a
/// `w` by `h` play area: each coordinate pulled into its allowed range.
pub open spec fn confined_position(p: Position, half: int, w: int, h: int) -> Position {
    Position {
        x: clamped(p.x as int, half, w - half) as i64,
        y: clamped(p.y as int, half, h - half) as i64,
    }
}

/// The direction the confiner leaves: each component's sign flipped
/// exactly on the axes where the position left its allowed range.
pub open spec fn reflected_direction(p: Position, d: Direction, half: int, w: int, h: int) -> Direction {
    Direction {
        x: if out_of_range(p.x as int, half, w - half) {
            (-d.x) as i64
        } else {
            d.x
        },
        y: if out_of_range(p.y as int, half, h - half) {
            (-d.y) as i64
        } else {
            d.y
        },
    }
}

/// The position left its allowed range on at least one axis, so the
/// confiner signals a bounce.
pub open spec fn bounced(p: Position, half: int, w: int, h: int) -> bool {
    out_of_range(p.x as int, half, w - half) || out_of_range(p.y as int, half, h - half)
}

/// The position a spawner draws: each coordinate is a draw reduced into
/// the play area, and a drawn height above `cutoff` is pulled down by
/// `drop` (a `drop` of zero leaves it alone).
pub open spec fn spawn_position(rx: u64, ry: u64, width: int, height: int, cutoff: int, drop: int) -> Position {
    let x = (rx as int) % width;
    let y0 = (ry as int) % height;
    let y = if y0 > cutoff {
        y0 - drop
    } else {
        y0
    };
    Position { x: x as i64, y: y as i64 }
}

/// Builds the position a pair of draws yields, exactly as
/// [`spawn_position`] states it.
pub fn drawn_position(rx: u64, ry: u64, width: i64, height: i64, cutoff: i64, drop: i64) -> (p: Position)
    requires
        1 <= width <= POS_LIMIT,
        1 <= height <= POS_LIMIT,
        0 <= drop <= cutoff,
    ensures
        p == spawn_position(rx, ry, width as int, height as int, cutoff as int, drop as int),
        0 <= p.x < width,
        0 <= p.y < height,
        pos_within(p, POS_LIMIT as int),
{
    let x: i64 = (rx % (width as u64)) as i64;
    let y0: i64 = (ry % (height as u64)) as i64;
    let y: i64 = if y0 > cutoff {
        y0 - drop
    } else {
        y0
    };
    Position { x, y }
}

/// The square of `a`.
pub open spec fn squared(a: int) -> int {
    a * a
}

/// The two circles overlap: their centre distance is strictly below the
/// sum of their radii, stated over squares to stay in integers.
pub open spec fn circles_overlap(p: Position, q: Position, rp: int, rq: int) -> bool {
    squared(p.x - q.x) + squared(p.y - q.y) < squared(rp + rq)
}

/// The collision test: whether two circles of the given radii (in
/// sub-units) overlap.
pub fn overlaps(p: Position, q: Position, rp: i64, rq: i64) -> (b: bool)
    requires
        pos_within(p, MOVED_LIMIT as int),
        pos_within(q, MOVED_LIMIT as int),
        0 <= rp <= POS_LIMIT,
        0 <= rq <= POS_LIMIT,
    ensures
        b == circles_overlap(p, q, rp as int, rq as int),
{
    let dx: i128 = p.x as i128 - q.x as i128;
    let dy: i128 = p.y as i128 - q.y as i128;
    let rs: i128 = rp as i128 + rq as i128;
    proof {
        assert(dx * dx <= 16_000_000_000_000_000_000_000_000_000_000 && dx * dx >= 0)
            by (nonlinear_arith)
            requires
                -4_000_000_000_000_000 <= dx <= 4_000_000_000_000_000,
        ;
        assert(dy * dy <= 16_000_000_000_000_000_000_000_000_000_000 && dy * dy >= 0)
            by (nonlinear_arith)
            requires
                -4_000_000_000_000_000 <= dy <= 4_000_000_000_000_000,
        ;
        assert(rs * rs <= 4_000_000_000_000_000_000_000_000_000_000 && rs * rs >= 0)
            by (nonlinear_arith)
            requires
                0 <= rs <= 2_000_000_000_000_000,
        ;
    }
    dx * dx + dy * dy < rs * rs
}

/// The integer square root: the largest `r` with `r * r <= n`.
pub fn isqrt(n: i64) -> (r: i64)
    requires
        0 <= n <= 2_000_000,
    ensures
        0 <= r,
        r * r <= n,
        n < (r + 1) * (r + 1),
{
    let mut r: i64 = 0;
    loop
        invariant
            0 <= r <= 1_500,
            r * r <= n,
            0 <= n <= 2_000_000,
        ensures
            0 <= r,
            r * r <= n,
            n < (r + 1) * (r + 1),
        decreases 2_000_000 - r,
    {
        proof {
            assert(0 <= (r + 1) * (r + 1) <= 4_000_000) by (nonlinear_arith)
                requires
                    0 <= r <= 1_500,
            ;
        }
        if (r + 1) * (r + 1) > n {
            break;
        }
        proof {
            assert((r + 1) * (r + 1) <= n ==> r + 1 <= 1_500) by (nonlinear_arith)
                requires
                    0 <= r,
                    n <= 2_000_000,
            ;
        }
        r = r + 1;
    }
    r
}

/// The floor of the square root of `n`, as picked out by its
/// characterization; [`lemma_floor_sqrt_is`] pins it to any witness.
pub open spec fn floor_sqrt(n: int) -> int {
    choose|r: int| 0 <= r && #[trigger] (r * r) <= n && n < (r + 1) * (r + 1)
}

/// A value with the floor-square-root characterization is the floor square
/// root: the characterization has at most one solution.
pub proof fn lemma_floor_sqrt_is(n: int, r: int)
    requires
        0 <= r,
        r * r <= n,
        n < (r + 1) * (r + 1),
    ensures
        floor_sqrt(n) == r,
{
    assert(exists|q: int| 0 <= q && #[trigger] (q * q) <= n && n < (q + 1) * (q + 1)) by {
        assert(0 <= r && r * r <= n && n < (r + 1) * (r + 1));
    }
    let c = floor_sqrt(n);
    assert(0 <= c && c * c <= n && n < (c + 1) * (c + 1));
    if c < r {
        assert((c + 1) * (c + 1) <= r * r) by (nonlinear_arith)
            requires
                0 <= c,
                c < r,
        ;
        assert(false);
    }
    if c > r {
        assert((r + 1) * (r + 1) <= c * c) by (nonlinear_arith)
            requires
                0 <= r,
                r < c,
        ;
        assert(false);
    }
}

/// The squared length of a stored heading stays within a thousandth of
/// one unit's square, unless the heading is zero: the fixed-point
/// normalization cannot land closer than its rounding allows.
pub open spec fn near_unit_or_zero(d: Direction) -> bool {
    ||| d.x == 0 && d.y == 0
    ||| 995_999 <= d.x * d.x + d.y * d.y <= 1_002_000
}

/// The heading a spawner stores for a pair of non-negative draws: the
/// pair divided by the fine-scaled floor square root of its squared
/// length; the zero pair stays zero.
pub open spec fn unit_direction(x: int, y: int) -> Direction {
    if x == 0 && y == 0 {
        Direction { x: 0, y: 0 }
    } else {
        let s = floor_sqrt((x * x + y * y) * 1_000_000);
        Direction { x: (x * 1_000_000 / s) as i64, y: (y * 1_000_000 / s) as i64 }
    }
}

/// The integer square root over the spawner's fine scale: a coarse root
/// first, then a short upward scan over its final three digits.
fn isqrt_fine(n: i64) -> (r: i64)
    requires
        1_000_000 <= n <= 2_000_000_000_000,
    ensures
        1000 <= r,
        r * r <= n,
        n < (r + 1) * (r + 1),
{
    proof {
        vstd::arithmetic::div_mod::lemma_fundamental_div_mod(n as int, 1_000_000);
        vstd::arithmetic::div_mod::lemma_mod_bound(n as int, 1_000_000);
        vstd::arithmetic::div_mod::lemma_div_is_ordered(
            1_000_000,
            n as int,
            1_000_000,
        );
        vstd::arithmetic::div_mod::lemma_div_is_ordered(
            n as int,
            2_000_000_000_000,
            1_000_000,
        );
    }
    let m: i64 = n / 1_000_000;
    let coarse: i64 = isqrt(m);
    proof {
        assert(coarse <= 1_415) by (nonlinear_arith)
            requires
                0 <= coarse,
                coarse * coarse <= 2_000_000,
        ;
        // the coarse root scaled up is still below the root ...
        assert((coarse * 1000) * (coarse * 1000) == (coarse * coarse) * 1_000_000)
            by (nonlinear_arith);
        // ... and the root lies below the next coarse step
        assert(((coarse + 1) * 1000) * ((coarse + 1) * 1000) == ((coarse + 1) * (coarse + 1))
            * 1_000_000) by (nonlinear_arith);
        assert(((coarse + 1) * (coarse + 1)) * 1_000_000 >= (m + 1) * 1_000_000)
            by (nonlinear_arith)
            requires
                m < (coarse + 1) * (coarse + 1),
        ;
    }
    let mut r: i64 = coarse * 1000;
    loop
        invariant
            1000 <= coarse * 1000 <= r,
            r <= (coarse + 1) * 1000,
            coarse <= 1_415,
            r * r <= n,
            1_000_000 <= n <= 2_000_000_000_000,
            n < ((coarse + 1) * 1000) * ((coarse + 1) * 1000),
        ensures
            1000 <= r,
            r * r <= n,
            n < (r + 1) * (r + 1),
        decreases (coarse + 1) * 1000 - r,
    {
        proof {
            assert(0 <= (r + 1) * (r + 1) <= 2_010_000_000_000) by (nonlinear_arith)
                requires
                    0 <= r <= 1_416_000,
            ;
        }
        if (r + 1) * (r + 1) > n {
            break;
        }
        proof {
            assert(r + 1 <= (coarse + 1) * 1000) by (nonlinear_arith)
                requires
                    0 <= coarse,
                    0 <= r + 1,
                    (r + 1) * (r + 1) <= n,
                    0 <= n,
                    n < ((coarse + 1) * 1000) * ((coarse + 1) * 1000),
            ;
        }
        r = r + 1;
    }
    r
}

/// The scaled components of a nonzero pair of draws land within a
/// thousandth of one unit's squared length.
proof fn lemma_scaled_near_unit(x: int, y: int, s: int, dx: int, dy: int)
    requires
        0 <= x < 1000,
        0 <= y < 1000,
        1 <= x * x + y * y,
        1000 <= s,
        s * s <= (x * x + y * y) * 1_000_000,
        (x * x + y * y) * 1_000_000 < (s + 1) * (s + 1),
        dx == x * 1_000_000 / s,
        dy == y * 1_000_000 / s,
        0 <= dx <= 1000,
        0 <= dy <= 1000,
    ensures
        995_999 <= dx * dx + dy * dy <= 1_002_000,
{
    let n = x * x + y * y;
    vstd::arithmetic::div_mod::lemma_fundamental_div_mod(x * 1_000_000, s);
    vstd::arithmetic::div_mod::lemma_mod_bound(x * 1_000_000, s);
    vstd::arithmetic::div_mod::lemma_fundamental_div_mod(y * 1_000_000, s);
    vstd::arithmetic::div_mod::lemma_mod_bound(y * 1_000_000, s);
    assert(s * dx <= x * 1_000_000 && x * 1_000_000 < s * (dx + 1)) by (nonlinear_arith)
        requires
            x * 1_000_000 == s * ((x * 1_000_000) / s) + ((x * 1_000_000) % s),
            0 <= (x * 1_000_000) % s < s,
            dx == x * 1_000_000 / s,
    ;
    assert(s * dy <= y * 1_000_000 && y * 1_000_000 < s * (dy + 1)) by (nonlinear_arith)
        requires
            y * 1_000_000 == s * ((y * 1_000_000) / s) + ((y * 1_000_000) % s),
            0 <= (y * 1_000_000) % s < s,
            dy == y * 1_000_000 / s,
    ;
    // upper bound: the squares of the exact quotients sum below the
    // squared fine root's bound
    assert((s * s) * (dx * dx + dy * dy) <= n * 1_000_000 * 1_000_000) by (nonlinear_arith)
        requires
            0 <= s,
            0 <= dx,
            0 <= dy,
            s * dx <= x * 1_000_000,
            s * dy <= y * 1_000_000,
            0 <= x,
            0 <= y,
            n == x * x + y * y,
    ;
    assert(n * 1_000_000 * 1_000_000 < ((s + 1) * (s + 1)) * 1_000_000) by (nonlinear_arith)
        requires
            n * 1_000_000 < (s + 1) * (s + 1),
    ;
    assert(((s + 1) * (s + 1)) * 1_000_000 <= 1_002_001 * (s * s)) by (nonlinear_arith)
        requires
            1000 <= s,
    ;
    assert(dx * dx + dy * dy <= 1_002_000) by (nonlinear_arith)
        requires
            (s * s) * (dx * dx + dy * dy) < 1_002_001 * (s * s),
            1000 <= s,
    ;
    // lower bound: the next quotients' squares sum above the squared
    // fine root itself
    assert((s * s) * ((dx + 1) * (dx + 1) + (dy + 1) * (dy + 1)) > n * 1_000_000 * 1_000_000)
        by (nonlinear_arith)
        requires
            0 <= s,
            x * 1_000_000 < s * (dx + 1),
            y * 1_000_000 < s * (dy + 1),
            0 <= x * 1_000_000,
            0 <= y * 1_000_000,
            n == x * x + y * y,
    ;
    assert(n * 1_000_000 * 1_000_000 >= (s * s) * 1_000_000) by (nonlinear_arith)
        requires
            s * s <= n * 1_000_000,
    ;
    assert((dx + 1) * (dx + 1) + (dy + 1) * (dy + 1) > 1_000_000) by (nonlinear_arith)
        requires
            (s * s) * ((dx + 1) * (dx + 1) + (dy + 1) * (dy + 1)) > (s * s) * 1_000_000,
            1000 <= s,
    ;
    assert(dx * dx + dy * dy >= 995_999) by (nonlinear_arith)
        requires
            (dx + 1) * (dx + 1) + (dy + 1) * (dy + 1) > 1_000_000,
            0 <= dx <= 1000,
            0 <= dy <= 1000,
    ;
}

/// Scales a pair of non-negative draws below one unit to a heading of
/// near-unit length, in integer arithmetic: each component is divided by
/// the fine-scaled floor square root of the squared length.
pub fn scale_to_unit(x: i64, y: i64) -> (d: Direction)
    requires
        0 <= x < DIR_UNIT,
        0 <= y < DIR_UNIT,
    ensures
        d == unit_direction(x as int, y as int),
        dir_within_unit(d),
        d.x >= 0,
        d.y >= 0,
        near_unit_or_zero(d),
        x == 0 && y == 0 ==> d == (Direction { x: 0, y: 0 }),
        !(x == 0 && y == 0) ==> 995_999 <= d.x * d.x + d.y * d.y <= 1_002_000,
{
    if x == 0 && y == 0 {
        Direction { x: 0, y: 0 }
    } else {
        proof {
            assert(0 < x * x + y * y <= 1_996_002) by (nonlinear_arith)
                requires
                    0 <= x < 1000,
                    0 <= y < 1000,
                    !(x == 0 && y == 0),
            ;
        }
        let n: i64 = x * x + y * y;
        let scaled: i64 = n * 1_000_000;
        let s: i64 = isqrt_fine(scaled);
        proof {
            lemma_floor_sqrt_is(scaled as int, s as int);
            // each component scaled by a thousand stays below the fine root
            assert(x * 1000 <= s && y * 1000 <= s) by (nonlinear_arith)
                requires
                    0 <= x,
                    0 <= y,
                    0 <= s,
                    (x * x + y * y) * 1_000_000 == scaled,
                    s * s <= scaled,
                    scaled < (s + 1) * (s + 1),
            ;
            assert(x * 1_000_000 <= s * 1000 && 0 <= x * 1_000_000 <= 999_000_000)
                by (nonlinear_arith)
                requires
                    0 <= x < 1000,
                    x * 1000 <= s,
            ;
            assert(y * 1_000_000 <= s * 1000 && 0 <= y * 1_000_000 <= 999_000_000)
                by (nonlinear_arith)
                requires
                    0 <= y < 1000,
                    y * 1000 <= s,
            ;
            vstd::arithmetic::div_mod::lemma_div_is_ordered(
                (x * 1_000_000) as int,
                (s * 1000) as int,
                s as int,
            );
            vstd::arithmetic::div_mod::lemma_div_is_ordered(
                (y * 1_000_000) as int,
                (s * 1000) as int,
                s as int,
            );
            vstd::arithmetic::div_mod::lemma_div_by_multiple(1000, s as int);
            vstd::arithmetic::div_mod::lemma_div_pos_is_pos((x * 1_000_000) as int, s as int);
            vstd::arithmetic::div_mod::lemma_div_pos_is_pos((y * 1_000_000) as int, s as int);
        }
        let dx: i64 = x * 1_000_000 / s;
        let dy: i64 = y * 1_000_000 / s;
        proof {
            lemma_scaled_near_unit(x as int, y as int, s as int, dx as int, dy as int);
        }
        Direction { x: dx, y: dy }
    }
}

} // verus!
