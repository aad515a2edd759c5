//! Fixed-point simulation core of an asteroid-field arcade game: craft,
//! hazards that fragment when destroyed, projectiles, and the collision and
//! spawning rules that tie them together.
//!
//! All quantities are integers: lengths in sub-pixels (`SUBPIXELS` per
//! pixel), durations in microseconds, angles in millidegrees (`TURN` per full
//! turn). Motion along an angle takes the angle's unit vector as a `Heading`
//! from the caller, which owns the trigonometry.

pub mod geometry;
pub mod random;
pub mod asteroid;
pub mod spaceship;
pub mod missile;
pub mod general;
