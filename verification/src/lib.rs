//! Frame-timing test suite: four pacing strategies for a fixed-rate loop and
//! the statistics that score them.
//!
//! Time is modelled in whole nanoseconds. [`time`] holds the duration and
//! instant arithmetic every other module builds on; [`params`] the run
//! configuration; [`pacing`] the four pacing state machines, which decide
//! when to work, sleep, spin or yield while a driver supplies the clock
//! readings and performs the waits; [`stats`] the aggregator that turns a
//! per-frame duration sequence into summary statistics; and [`workload`] the
//! synthetic per-frame computation.

pub mod pacing;
pub mod params;
pub mod stats;
pub mod time;
pub mod workload;
