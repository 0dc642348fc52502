//! Detection of drones inside a protected no-fly zone around a nest, and
//! the pipeline that turns one telemetry snapshot into the contact records
//! of the violating drones' pilots.
//!
//! Positions and the radius are integers in one fixed unit chosen by the
//! caller, so the fence test `dx*dx + dy*dy <= radius*radius` is exact.

pub mod model;
pub mod geofence;
pub mod resolve;
pub mod pipeline;
