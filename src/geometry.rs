//! Fixed-point plane geometry: points, unit headings, toroidal wrapping,
//! angle wrapping and circle overlap.
use vstd::prelude::*;

verus! {

/// Sub-pixel units in one pixel: every length and position is in sub-pixels.
pub const SUBPIXELS: i64 = 1000;

/// Microseconds in one second: every duration is in microseconds.
pub const MICROS: i64 = 1_000_000;

/// Angle units (millidegrees) in a full turn.
pub const TURN: i64 = 360_000;

/// An eighth of a turn (pi / 4).
pub const EIGHTH_TURN: i64 = 45_000;

/// Scale of the components of a unit heading: (cos, sin) times this.
pub const HEADING_UNIT: i64 = 1_000_000;

/// Largest magnitude of a coordinate or of a screen extent.
pub const COORD_LIMIT: i64 = 1_000_000_000_000;

/// Largest duration of one integration step (1000 s).
pub const DT_LIMIT: i64 = 1_000_000_000;

/// Largest magnitude of a speed, in sub-pixels per second.
pub const SPEED_LIMIT: i64 = 1_000_000_000_000;

/// A point of the plane, in sub-pixels.
#[derive(Clone, Copy, Debug, PartialEq, Eq, Structural)]
pub struct Point {
    pub x: i64,
    pub y: i64,
}

/// The unit vector (cos, sin) of an angle, scaled by `HEADING_UNIT`.
#[derive(Clone, Copy, Debug, PartialEq, Eq, Structural)]
pub struct Heading {
    pub x: i64,
    pub y: i64,
}

impl Point {
    pub open spec fn in_limits(self) -> bool {
        -COORD_LIMIT <= self.x <= COORD_LIMIT && -COORD_LIMIT <= self.y <= COORD_LIMIT
    }

    pub fn new(x: i64, y: i64) -> (r: Point)
        ensures
            r.x == x,
            r.y == y,
    {
        Point { x, y }
    }
}

impl Heading {
    pub open spec fn wf(self) -> bool {
        -HEADING_UNIT <= self.x <= HEADING_UNIT && -HEADING_UNIT <= self.y <= HEADING_UNIT
    }

    pub fn new(x: i64, y: i64) -> (r: Heading)
        requires
            -HEADING_UNIT <= x <= HEADING_UNIT,
            -HEADING_UNIT <= y <= HEADING_UNIT,
        ensures
            r.x == x,
            r.y == y,
            r.wf(),
    {
        Heading { x, y }
    }
}

/// Displacement along one axis: component (scaled by `HEADING_UNIT`) times a
/// speed in sub-pixels per second (scaled by `scale`) times a duration in
/// microseconds, rounded toward zero.
pub open spec fn displacement(component: int, speed: int, scale: int, dt: int) -> int {
    let p = component * speed * dt;
    let d = HEADING_UNIT * scale * MICROS;
    if p >= 0 { p / d } else { -((-p) / d) }
}

/// Squared distance between two points.
pub open spec fn dist_sq(a: Point, b: Point) -> int {
    (a.x - b.x) * (a.x - b.x) + (a.y - b.y) * (a.y - b.y)
}

/// Two circles whose centres are `a` and `b` and whose radii add up to
/// `reach` overlap: their centres are closer than `reach`.
pub open spec fn overlap_spec(a: Point, b: Point, reach: int) -> bool {
    dist_sq(a, b) < reach * reach
}

/// Whether the centres `a` and `b` are closer than `reach` (a sum of radii).
pub fn circles_overlap(a: Point, b: Point, reach: i64) -> (r: bool)
    requires
        a.in_limits(),
        b.in_limits(),
        0 <= reach <= 4 * COORD_LIMIT,
    ensures
        r == overlap_spec(a, b, reach as int),
{
    let dx = a.x as i128 - b.x as i128;
    let dy = a.y as i128 - b.y as i128;
    let rr = reach as i128;
    proof {
        lemma_mul_bound(dx as int, dx as int, 2 * COORD_LIMIT, 2 * COORD_LIMIT);
        lemma_mul_bound(dy as int, dy as int, 2 * COORD_LIMIT, 2 * COORD_LIMIT);
        assert(0 <= rr * rr <= 16_000_000_000_000_000_000_000_000) by (nonlinear_arith)
            requires 0 <= rr <= 4_000_000_000_000;
    }
    dx * dx + dy * dy < rr * rr
}

/// An angle reduced into (-TURN, TURN), keeping its sign, as Rust's `%` does.
pub open spec fn wrap_angle_spec(a: int) -> int {
    if a >= 0 { a % (TURN as int) } else { -((-a) % (TURN as int)) }
}

/// Adds `amount` to the angle `a` and reduces the sum into (-TURN, TURN).
pub fn wrap_angle(a: i64, amount: i64) -> (r: i64)
    requires
        -COORD_LIMIT <= a <= COORD_LIMIT,
        -COORD_LIMIT <= amount <= COORD_LIMIT,
    ensures
        r == wrap_angle_spec(a + amount),
        -TURN < r < TURN,
{
    let s = a + amount;
    s % TURN
}

/// Toroidal wrap of one coordinate: below 0 goes to `max`, above `max` to 0.
pub open spec fn wrap_coord_spec(c: int, max: int) -> int {
    if c < 0 { max } else if c > max { 0 } else { c }
}

/// Relocates a coordinate that left [0, max] to the opposite edge.
pub fn bound_to(coord: i64, max: i64) -> (r: i64)
    requires
        max >= 0,
    ensures
        r == wrap_coord_spec(coord as int, max as int),
        0 <= r <= max,
{
    if coord < 0 {
        max
    } else if coord > max {
        0
    } else {
        coord
    }
}

/// Wraps both coordinates of a point into the screen [0, width] x [0, height].
pub fn bound_pos(pos: Point, width: i64, height: i64) -> (r: Point)
    requires
        width >= 0,
        height >= 0,
    ensures
        r.x == wrap_coord_spec(pos.x as int, width as int),
        r.y == wrap_coord_spec(pos.y as int, height as int),
{
    Point { x: bound_to(pos.x, width), y: bound_to(pos.y, height) }
}

/// One coordinate moved along a heading component for `dt` microseconds at
/// `speed` sub-pixels per second times `factor / scale`.
pub open spec fn advance_spec(c: int, component: int, speed: int, factor: int, scale: int, dt: int) -> int {
    c + displacement(component, speed * factor, scale, dt)
}

/// Moves one coordinate along a heading component; see `advance_spec`.
pub fn advance(c: i64, component: i64, speed: i64, factor: i64, scale: i64, dt: i64) -> (r: i64)
    requires
        -COORD_LIMIT <= c <= COORD_LIMIT,
        -HEADING_UNIT <= component <= HEADING_UNIT,
        -SPEED_LIMIT <= speed <= SPEED_LIMIT,
        1 <= scale <= 1_000_000,
        0 <= factor <= 4 * scale,
        0 <= dt <= DT_LIMIT,
    ensures
        r == advance_spec(c as int, component as int, speed as int, factor as int, scale as int, dt as int),
{
    proof {
        bounds_of_advance(component as int, speed as int, factor as int, scale as int, dt as int);
    }
    let sf = speed as i128 * factor as i128;
    let p = component as i128 * sf * dt as i128;
    let d = HEADING_UNIT as i128 * scale as i128 * MICROS as i128;
    let q: i128 = if p >= 0 { p / d } else { -((-p) / d) };
    assert(q == displacement(component as int, speed * factor, scale as int, dt as int));
    (c as i128 + q) as i64
}

proof fn lemma_mul_bound(x: int, y: int, bx: int, by: int)
    requires
        -bx <= x <= bx,
        -by <= y <= by,
    ensures
        -(bx * by) <= x * y <= bx * by,
{
    assert(-(bx * by) <= x * y <= bx * by) by (nonlinear_arith)
        requires -bx <= x <= bx, -by <= y <= by;
}

proof fn bounds_of_advance(component: int, speed: int, factor: int, scale: int, dt: int)
    requires
        -HEADING_UNIT <= component <= HEADING_UNIT,
        -SPEED_LIMIT <= speed <= SPEED_LIMIT,
        0 <= factor <= 4 * scale,
        1 <= scale <= 1_000_000,
        0 <= dt <= DT_LIMIT,
    ensures
        -SPEED_LIMIT * 4_000_000 <= speed * factor <= SPEED_LIMIT * 4_000_000,
        -(HEADING_UNIT * (SPEED_LIMIT * 4_000_000)) <= component * (speed * factor)
            <= HEADING_UNIT * (SPEED_LIMIT * 4_000_000),
        -(HEADING_UNIT * (SPEED_LIMIT * 4_000_000)) * DT_LIMIT <= component * (speed * factor) * dt
            <= (HEADING_UNIT * (SPEED_LIMIT * 4_000_000)) * DT_LIMIT,
        -SPEED_LIMIT * 4000 <= displacement(component, speed * factor, scale, dt) <= SPEED_LIMIT * 4000,
{
    let sf = speed * factor;
    let sl = SPEED_LIMIT as int;
    let dl = DT_LIMIT as int;
    let u = HEADING_UNIT as int;
    lemma_mul_bound(speed, factor, sl, 4 * scale);
    lemma_mul_bound(speed, factor, sl, 4_000_000);
    lemma_mul_bound(component, sf, u, sl * (4 * scale));
    lemma_mul_bound(component * sf, dt, u * (sl * (4 * scale)), dl);
    lemma_mul_bound(component, sf, u, sl * 4_000_000);
    lemma_mul_bound(component * sf, dt, u * (sl * 4_000_000), dl);
    let p = component * sf * dt;
    let d = u * scale * MICROS;
    let ap = if p >= 0 { p } else { -p };
    assert(u * (sl * (4 * scale)) * dl == (4 * sl * dl) * (u * scale)) by (nonlinear_arith);
    assert(ap <= (4 * sl * dl) * (u * scale));
    assert(d == (u * scale) * 1_000_000);
    assert(u * scale > 0) by (nonlinear_arith) requires u > 0, scale > 0;
    assert(ap <= (sl * 4000) * d) by (nonlinear_arith)
        requires ap <= (4 * sl * dl) * (u * scale), d == (u * scale) * 1_000_000, dl == 1_000_000_000;
    assert(ap / d <= sl * 4000) by (nonlinear_arith)
        requires ap <= (sl * 4000) * d, d > 0, ap >= 0;
    assert(ap / d >= 0) by (nonlinear_arith) requires ap >= 0, d > 0;
}

} // verus!
