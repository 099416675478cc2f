//! Fixed-point kinematics of a single steerable ship.
//!
//! Every quantity is an integer: angles are counted in microdegrees, time in
//! microseconds, lengths in nanopixels and heading components in millionths.
//! The arithmetic is therefore exact, and each operation is specified over
//! mathematical integers.

pub mod units;
pub mod vector;
pub mod controls;
pub mod ship;
pub mod transform;
pub mod game;
pub mod history;
