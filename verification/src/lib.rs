//! Core of a tiled 2D survival game: a deterministic terrain generator driven
//! by blended noise samples, a rate-limited spawner that places agents on an
//! annulus around the player, and a distance/angle steering classifier that
//! moves agents toward the player each tick.
//!
//! Continuous quantities are carried as fixed-point integers: noise samples in
//! ten-thousandths, world coordinates in hundredths of a world unit, angles in
//! hundredths of a degree. The trigonometry and noise evaluation that produce
//! those values live with the caller; everything the game decides from them is
//! verified here.

pub mod agent;
pub mod biome;
pub mod entropy;
pub mod geom;
pub mod player;
pub mod rng;
pub mod spawn;
pub mod steer;
pub mod worldgen;
