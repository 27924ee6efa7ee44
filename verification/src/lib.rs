//! Sampling core of a single-process resource monitor.
//!
//! The monitor watches one operating-system process, takes one sample of its
//! resident memory and CPU utilisation per sampling interval, and hands out a
//! fixed-format report exactly once when monitoring ends.

pub mod provider;
pub mod report;
pub mod sampler;
pub mod status;
pub mod trace;
