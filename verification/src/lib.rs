//! The deterministic core of a side-scrolling jump game: a seeded level, a
//! fixed-step simulation of player and camera, and the texts that report on a run.
//!
//! Nothing here works in floating point. Lengths are whole numbers of
//! [`units::ONE`]-ths of a world unit, so a run is the same on every machine.

pub mod error;
pub mod units;
pub mod game;
pub mod level;
pub mod material;
pub mod motion;
pub mod text;
pub mod view;
