//! Verified core of a two-player paddle-and-ball arena game.
//!
//! The arena, paddles and ball live on an integer grid: positions are in
//! milli-units (one thousandth of a world unit), velocities in world units
//! per second, and frame times in milliseconds, so one frame's displacement
//! in milli-units is exactly `velocity * dt_ms`.

pub mod aim;
pub mod consts;
pub mod entities;
pub mod geom;
pub mod isqrt;
pub mod paddle;
pub mod rng;
pub mod sim;
