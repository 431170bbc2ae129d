//! Verified core of a 2D kinematic platformer: gravity profiles, grounded
//! state, shape-cast based collision clipping, jump buffering and coyote
//! time, plus the small deterministic helpers around them (grid
//! coordinates, cooldown timers, word tiles).
//!
//! All world quantities are fixed-point integers in thousandths of a world
//! unit ("milli-units"); durations are integer microseconds or milliseconds.
//! A host loop performs input reading and rendering and calls into this
//! library for every decision.

pub mod anim;
pub mod fog;
pub mod goal;
pub mod level;
pub mod math;
pub mod movement;
pub mod obstacles;
pub mod physics;
pub mod pipeline;
pub mod player;
pub mod screen;
pub mod time;
pub mod word;
