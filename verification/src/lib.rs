//! Core of a 2D arcade game: a player cube, an enemy cube and a number of
//! neutral cubes roam a wrapped arena, and powerup/penalty balls appear at
//! random. The library holds the per-tick decision logic — targeting for each
//! cube kind, screen-wrap motion integration, and the random spawn policy —
//! over an explicit entity arena with integer coordinates. The host (window,
//! rendering, input polling) drives the tick functions from outside.

pub mod entity;
pub mod motion;
pub mod rng;
pub mod spawn;
pub mod targeting;
pub mod tick;
pub mod world;
