//! Projectiles: fired along the craft's facing, never wrapped, and spent
//! once they leave the screen.
use crate::geometry::{
    advance, advance_spec, displacement, Heading, Point, COORD_LIMIT, DT_LIMIT, HEADING_UNIT, MICROS,
    SUBPIXELS,
};
use vstd::prelude::*;

verus! {

/// Speed added to every projectile, in sub-pixels per second.
pub const MISSILE_BOOST: i64 = 200 * SUBPIXELS;

/// Collision radius of a projectile, in sub-pixels.
pub const MISSILE_SIZE: i64 = 5 * SUBPIXELS;

/// Bound on the firing speed of a projectile, in sub-pixels per second.
pub const MISSILE_SPEED_CAP: i64 = 1_000_000_000;

pub struct Missile {
    pub position: Point,
    /// Firing speed, in sub-pixels per second; `MISSILE_BOOST` adds to it.
    pub velocity: i64,
    /// Travel direction, in angle units, fixed at creation.
    pub rotation: i64,
    /// Whether it still flies; a spent one is inert and due for removal.
    pub active: bool,
    /// Collision radius, in sub-pixels.
    pub size: i64,
}

/// Whether a point lies on the screen [0, width] x [0, height].
pub open spec fn on_screen(p: Point, width: int, height: int) -> bool {
    0 <= p.x <= width && 0 <= p.y <= height
}

impl Missile {
    pub open spec fn wf(&self) -> bool {
        &&& 0 <= self.velocity <= MISSILE_SPEED_CAP
        &&& 0 <= self.size <= MISSILE_SIZE
        &&& self.active ==> self.position.in_limits()
    }

    /// A flying projectile at `position`, as fast as `direction` in magnitude,
    /// travelling along the angle `rotation`.
    pub fn new(position: Point, direction: i64, rotation: i64) -> (r: Missile)
        requires
            position.in_limits(),
            -MISSILE_SPEED_CAP <= direction <= MISSILE_SPEED_CAP,
        ensures
            r == (Missile {
                position,
                velocity: (if direction >= 0 { direction as int } else { -direction }) as i64,
                rotation,
                active: true,
                size: MISSILE_SIZE,
            }),
            r.wf(),
    {
        Missile {
            position,
            velocity: if direction >= 0 { direction } else { -direction },
            rotation,
            active: true,
            size: MISSILE_SIZE,
        }
    }

    /// Moves the projectile along its direction (whose unit vector is
    /// `heading`) at its speed plus `MISSILE_BOOST`, for `delta_time`
    /// microseconds, without wrapping; it is spent if it is off the screen
    /// afterwards, and stays spent once spent.
    pub fn update(&mut self, delta_time: i64, heading: Heading, width: i64, height: i64)
        requires
            old(self).wf(),
            old(self).position.in_limits(),
            heading.wf(),
            0 <= delta_time <= DT_LIMIT,
            0 <= width <= COORD_LIMIT,
            0 <= height <= COORD_LIMIT,
        ensures
            ({
                let moved = Point {
                    x: advance_spec(old(self).position.x as int, heading.x as int,
                        old(self).velocity + MISSILE_BOOST, 1, 1, delta_time as int) as i64,
                    y: advance_spec(old(self).position.y as int, heading.y as int,
                        old(self).velocity + MISSILE_BOOST, 1, 1, delta_time as int) as i64,
                };
                *final(self) == (Missile {
                    position: moved,
                    active: old(self).active && on_screen(moved, width as int, height as int),
                    ..*old(self)
                })
            }),
            final(self).wf(),
    {
        let speed = self.velocity + MISSILE_BOOST;
        let x = advance(self.position.x, heading.x, speed, 1, 1, delta_time);
        let y = advance(self.position.y, heading.y, speed, 1, 1, delta_time);
        self.position = Point { x, y };
        if x < 0 || x > width || y < 0 || y > height {
            self.active = false;
        }
    }
}

/// Moving for one second along the angle 0, whose unit vector is
/// (HEADING_UNIT, 0), carries a projectile exactly its speed plus the boost
/// in +x, and not at all in y.
pub proof fn lemma_straight_run(x: int, y: int, velocity: int)
    requires
        0 <= velocity,
    ensures
        advance_spec(x, HEADING_UNIT as int, velocity + MISSILE_BOOST, 1, 1, MICROS as int)
            == x + velocity + MISSILE_BOOST,
        advance_spec(y, 0, velocity + MISSILE_BOOST, 1, 1, MICROS as int) == y,
{
    let v = velocity + MISSILE_BOOST;
    let u = HEADING_UNIT as int;
    let m = MICROS as int;
    assert(u * (v * 1) * m == v * (u * 1 * m)) by (nonlinear_arith);
    assert(u * 1 * m > 0);
    assert(v * (u * 1 * m) / (u * 1 * m) == v) by (nonlinear_arith)
        requires u * 1 * m > 0;
    assert(v * (u * 1 * m) >= 0) by (nonlinear_arith) requires v >= 0, u * 1 * m > 0;
    assert(displacement(u, v * 1, 1, m) == v);
    assert(0 * (v * 1) * m == 0);
    assert(displacement(0, v * 1, 1, m) == 0);
}

} // verus!
