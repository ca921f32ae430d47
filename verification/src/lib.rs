//! Telemetry agent core: samples, metric descriptors, collector payload parsers
//! and the decisions of the scheduler, the runners and the emitter.

pub mod bosun;
pub mod collectors;
pub mod config;
pub mod number;
pub mod pattern;
pub mod scheduler;
pub mod tags;
pub mod text;
pub mod utils;
