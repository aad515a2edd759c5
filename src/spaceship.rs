//! The player's craft: thrust with a hard speed ceiling, spin, and motion on
//! the toroidal screen.
use crate::geometry::{
    advance, advance_spec, bound_pos, wrap_angle, wrap_angle_spec, wrap_coord_spec, Heading, Point,
    COORD_LIMIT, DT_LIMIT, MICROS, SPEED_LIMIT, SUBPIXELS, TURN,
};
use vstd::prelude::*;

verus! {

/// Speed ceiling of a new craft, in sub-pixels per second.
pub const SHIP_MAX_SPEED: i64 = 500 * SUBPIXELS;

/// Turn rate of a new craft, in angle units per second (4 radians per second).
pub const SHIP_TURN_RATE: i64 = 229_183;

/// Size of a new craft, in sub-pixels.
pub const SHIP_SIZE: i64 = 20 * SUBPIXELS;

/// Acceleration of a thrust, in sub-pixels per second per second; it is
/// three times more against the current motion.
pub const BASE_ACCELERATION: i64 = 150 * SUBPIXELS;

/// Bound on the speed ceiling of a craft, in sub-pixels per second.
pub const MAX_SPEED_CAP: i64 = 1_000_000_000;

/// Bound on the size and on the turn rate of a craft.
pub const SHIP_CAP: i64 = 1_000_000_000;

pub struct Spaceship {
    pub position: Point,
    /// Signed speed along the facing, in sub-pixels per second (negative
    /// moves backward).
    pub speed: i64,
    /// Speed ceiling, in sub-pixels per second.
    pub max_speed: i64,
    /// Facing, in angle units.
    pub rotation: i64,
    /// Spin that a turn command applies, in angle units per second.
    pub turn_rate: i64,
    /// Size, in sub-pixels; it is also the collision radius.
    pub size: i64,
}

/// The speed after one thrust of `dt` microseconds, forward or backward.
pub open spec fn thrust_spec(speed: int, max_speed: int, dt: int, forward: bool) -> int {
    let opposed = if forward { speed < 0 } else { speed >= 0 };
    let factor: int = if opposed { 3 } else { 1 };
    let magnitude = BASE_ACCELERATION * factor * dt / (MICROS as int);
    let next = if forward { speed + magnitude } else { speed - magnitude };
    if -max_speed < next < max_speed { next } else if forward { max_speed } else { -max_speed }
}

/// The speed `speed` held within [-max_speed, max_speed].
pub open spec fn clamp_speed(speed: int, max_speed: int) -> int {
    if speed > max_speed { max_speed } else if speed < -max_speed { -max_speed } else { speed }
}

/// The speed after a sequence of thrusts, each a duration and a way.
pub open spec fn thrusts(speed: int, max_speed: int, commands: Seq<(int, bool)>) -> int
    decreases commands.len(),
{
    if commands.len() == 0 {
        speed
    } else {
        thrust_spec(
            thrusts(speed, max_speed, commands.drop_last()),
            max_speed,
            commands.last().0,
            commands.last().1,
        )
    }
}

impl Spaceship {
    pub open spec fn wf(&self) -> bool {
        &&& self.position.in_limits()
        &&& 0 <= self.max_speed <= MAX_SPEED_CAP
        &&& -SPEED_LIMIT <= self.speed <= SPEED_LIMIT
        &&& -TURN <= self.rotation <= TURN
        &&& 0 <= self.turn_rate <= SHIP_CAP
        &&& 0 <= self.size <= SHIP_CAP
    }

    /// A craft at rest at the centre of the screen [0, width] x [0, height],
    /// facing angle 0.
    pub fn new(width: i64, height: i64) -> (r: Spaceship)
        requires
            0 <= width <= COORD_LIMIT,
            0 <= height <= COORD_LIMIT,
        ensures
            r.wf(),
            r == (Spaceship {
                position: Point { x: (width / 2) as i64, y: (height / 2) as i64 },
                speed: 0,
                max_speed: SHIP_MAX_SPEED,
                rotation: 0,
                turn_rate: SHIP_TURN_RATE,
                size: SHIP_SIZE,
            }),
    {
        Spaceship {
            position: Point { x: width / 2, y: height / 2 },
            speed: 0,
            max_speed: SHIP_MAX_SPEED,
            rotation: 0,
            turn_rate: SHIP_TURN_RATE,
            size: SHIP_SIZE,
        }
    }

    /// Turns the facing by `amount`, reduced into (-TURN, TURN).
    pub fn add_rotation(&mut self, amount: i64)
        requires
            old(self).wf(),
            -COORD_LIMIT <= amount <= COORD_LIMIT,
        ensures
            *final(self) == (Spaceship {
                rotation: wrap_angle_spec(old(self).rotation + amount) as i64,
                ..*old(self)
            }),
            final(self).wf(),
    {
        self.rotation = wrap_angle(self.rotation, amount);
    }

    /// Thrusts for `delta_time` microseconds, forward or backward: three
    /// times harder against the current motion, and snapping to the ceiling
    /// in the commanded way where the speed would reach it.
    pub fn move_spaceship(&mut self, delta_time: i64, movement_type: bool)
        requires
            old(self).wf(),
            0 <= delta_time,
        ensures
            *final(self) == (Spaceship {
                speed: thrust_spec(old(self).speed as int, old(self).max_speed as int, delta_time as int,
                    movement_type) as i64,
                ..*old(self)
            }),
            -final(self).max_speed <= final(self).speed <= final(self).max_speed,
            final(self).wf(),
    {
        let opposed = if movement_type { self.speed < 0 } else { self.speed >= 0 };
        let factor: i128 = if opposed { 3 } else { 1 };
        proof {
            assert(0 <= BASE_ACCELERATION * factor * delta_time <= BASE_ACCELERATION * 3 * i64::MAX)
                by (nonlinear_arith) requires 1 <= factor <= 3, 0 <= delta_time <= i64::MAX;
        }
        let magnitude = BASE_ACCELERATION as i128 * factor * delta_time as i128 / MICROS as i128;
        let speed = self.speed as i128;
        let next = if movement_type { speed + magnitude } else { speed - magnitude };
        let max = self.max_speed as i128;
        if -max < next && next < max {
            self.speed = next as i64;
        } else if movement_type {
            self.speed = self.max_speed;
        } else {
            self.speed = -self.max_speed;
        }
    }

    /// Holds the speed under the ceiling, then moves along the facing (whose
    /// unit vector is `heading`) for `delta_time` microseconds and wraps
    /// around the screen [0, width] x [0, height].
    pub fn update(&mut self, delta_time: i64, heading: Heading, width: i64, height: i64)
        requires
            old(self).wf(),
            heading.wf(),
            0 <= delta_time <= DT_LIMIT,
            0 <= width <= COORD_LIMIT,
            0 <= height <= COORD_LIMIT,
        ensures
            final(self).speed == clamp_speed(old(self).speed as int, old(self).max_speed as int),
            final(self).position == (Point {
                x: wrap_coord_spec(
                    advance_spec(old(self).position.x as int, heading.x as int, final(self).speed as int, 1, 1,
                        delta_time as int),
                    width as int,
                ) as i64,
                y: wrap_coord_spec(
                    advance_spec(old(self).position.y as int, heading.y as int, final(self).speed as int, 1, 1,
                        delta_time as int),
                    height as int,
                ) as i64,
            }),
            final(self).max_speed == old(self).max_speed,
            final(self).rotation == old(self).rotation,
            final(self).turn_rate == old(self).turn_rate,
            final(self).size == old(self).size,
            final(self).wf(),
    {
        if self.speed > self.max_speed {
            self.speed = self.max_speed;
        } else if self.speed < -self.max_speed {
            self.speed = -self.max_speed;
        }
        let x = advance(self.position.x, heading.x, self.speed, 1, 1, delta_time);
        let y = advance(self.position.y, heading.y, self.speed, 1, 1, delta_time);
        self.position = bound_pos(Point { x, y }, width, height);
    }

    /// Collision radius: the distance from the centre of the triangular
    /// silhouette to a vertex, `size / (2 cos(pi / 3))`, which is `size`.
    pub fn get_collision_radius(&self) -> (r: i64)
        ensures
            r == self.size,
    {
        self.size
    }
}

/// A thrust never leaves the speed above the ceiling, whatever the speed
/// before it and however long it lasts.
pub proof fn lemma_thrust_bounded(speed: int, max_speed: int, dt: int, forward: bool)
    requires
        0 <= max_speed,
        0 <= dt,
    ensures
        -max_speed <= thrust_spec(speed, max_speed, dt, forward) <= max_speed,
{
}

/// After any non-empty sequence of thrusts, or any sequence at all from a
/// speed within the ceiling, the speed is within the ceiling.
pub proof fn lemma_thrusts_bounded(speed: int, max_speed: int, commands: Seq<(int, bool)>)
    requires
        0 <= max_speed,
        forall|k: int| 0 <= k < commands.len() ==> 0 <= (#[trigger] commands[k]).0,
        commands.len() > 0 || -max_speed <= speed <= max_speed,
    ensures
        -max_speed <= thrusts(speed, max_speed, commands) <= max_speed,
    decreases commands.len(),
{
    if commands.len() > 0 {
        let last = commands.last();
        assert(0 <= commands[commands.len() - 1].0);
        lemma_thrust_bounded(thrusts(speed, max_speed, commands.drop_last()), max_speed, last.0, last.1);
    }
}

} // verus!
