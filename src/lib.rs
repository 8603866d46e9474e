//! Telemetry snapshots of a GPU and their text renderings.
pub mod text;
pub mod paint;
pub mod stats;
pub mod device;
pub mod render;
pub mod driver;
