//! Verified core logic for a set of small arcade-game prototypes: a
//! three-phase asteroids-style shooter, a breakout paddle game, a
//! random cell grid, and a flocking toy.
//!
//! All geometry is carried in fixed-point integer units (quarter
//! pixels for positions, tenths of a degree for angles, thousandths
//! for trigonometric coefficients) so that every update rule,
//! collision test and state transition can be stated and proved
//! exactly. Rendering, audio and windowing belong to a host program;
//! randomness comes from the `rand` crate behind trusted wrappers.

pub mod boids;
pub mod breakout;
pub mod collision;
pub mod entities;
pub mod events;
pub mod game;
pub mod geom;
pub mod life;
mod rng;
pub mod spawn;
pub mod trig;
