//! Dead-reckoning pose estimation for a two-parallel-wheel drivetrain.
//!
//! Distances and angles are fixed-point numbers: an `i64` counts steps of
//! one millionth of a distance unit or of a radian. Each control cycle the
//! estimator reads two wheel-mounted rotary sensors (and optionally a
//! gyroscope), converts the readings to linear travel, and integrates an
//! arc-approximated displacement into its stored pose.

pub mod devices;
pub mod fixed;
pub mod tracking;
pub mod vec2;
