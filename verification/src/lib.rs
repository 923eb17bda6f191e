//! Collection round engine for a fleet of networked metering devices.
//!
//! The crate covers the logic of a periodic telemetry collector: a catalog
//! mapping raw device fields to chart/dimension series with a unit-conversion
//! policy, a registry of devices to poll, a model of the fan-out/fan-in poll
//! round, normalization of raw readings into per-dimension integer samples,
//! planning of the declare/feed/commit traffic towards the metrics sink, and
//! the drift-correcting interval scheduler.  All wire I/O (device queries,
//! sink output, configuration) lives outside the crate and hands plain values
//! in and out.

pub mod catalog;
pub mod emit;
pub mod paths;
pub mod poll;
pub mod registry;
pub mod round;
pub mod schedule;
