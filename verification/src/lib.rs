//! Verified rules of a single-lane lawn defence game: catalog of units, lawn
//! grid and occupancy, sun economy and card cooldowns, the zombie wave
//! timeline, timers, projectile hit resolution, collision groups and the
//! command line.

pub mod text;
pub mod kinds;
pub mod timer;
pub mod catalog;
pub mod lawn;
pub mod economy;
pub mod level;
pub mod flow;
pub mod combat;
pub mod placement;
pub mod projectile;
pub mod physics;
pub mod zombie;
pub mod defense;
pub mod pause;
pub mod plant;
pub mod hud;
pub mod controls;
pub mod cli;
