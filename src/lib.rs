//! Stat aggregation and player-build state for a champion build calculator.
//!
//! Stat values are fixed-point integers counted in millionths of a stat
//! point, so that merging contributions is exact, commutative and
//! associative.

pub mod aggregate;
pub mod catalog;
pub mod player;
pub mod stats;
pub mod version;
