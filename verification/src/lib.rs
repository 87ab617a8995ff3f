//! Fixed-point core of an ant-colony simulation: two decaying pheromone
//! fields and ants that steer over them, pick food up and carry it home.
//!
//! All quantities are integers. Lengths and vector components count
//! millionths of a grid cell, intensities count billionths of the maximum
//! intensity, angles count whole degrees and durations count microseconds.
//!
//! A tick runs four steps in a fixed order: the goal transition, steering,
//! ageing with rebirth and the lifetime reset, and last the update of both
//! fields. `game::Game::tick` runs them; the modules under `systems` hold
//! one step each, and `pheromones` holds the fields and their update.

pub mod ant;
pub mod food;
pub mod game;
pub mod pheromones;
pub mod systems;
pub mod utils;
