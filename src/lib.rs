//! Flocking ("boids") simulation over fixed-point coordinates.
//!
//! Every agent senses its neighbours and the bounds of its world, computes
//! four steering forces, turns towards their sum and moves one tick ahead.
//! Coordinates are integers counting `1 / UNIT` of a length unit, so that
//! each step of the pipeline is stated exactly and proved.

pub mod vector;
pub mod components;
pub mod neighbors;
pub mod centre;
pub mod steering;
pub mod parallel;
pub mod bounds;
pub mod integrate;
pub mod flock;
pub mod laws;
pub mod scene;
