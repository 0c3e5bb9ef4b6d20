//! Verified core of a spiral line sketch.

pub mod config;
pub mod curve;
pub mod fixed;
pub mod params;
pub mod radius;
pub mod random;
pub mod sketch;
