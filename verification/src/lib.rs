//! Simulation core of a top-down bomb-laying arcade game.
//!
//! All quantities are integers. Lengths are in thousandths of a pixel, times in
//! microseconds and speeds in tenths of a tile per second, so that every rule of the game
//! is exact arithmetic that can be proved.

pub mod bomb;
pub mod collision;
pub mod components;
pub mod destruction;
pub mod enemy;
pub mod explosion;
pub mod math;
pub mod pickup;
pub mod player;
pub mod seq_facts;
pub mod simulation;
pub mod state;
pub mod tilemap;
pub mod timer;
