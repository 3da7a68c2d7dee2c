//! Decision logic of a fan-control daemon: configuration defaults and
//! overrides, sensor-group resolution, temperature selection, piecewise-linear
//! duty curves and the per-cycle failsafe policy.
//!
//! Temperatures are integers in millidegrees Celsius, as the kernel reports
//! them; duties are integer percents.

pub mod config;
pub mod control;
pub mod curve;
pub mod duty;
pub mod sensors;
pub mod text;
