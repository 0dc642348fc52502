use vstd::prelude::*;

verus! {

/// A point of the plane, in the caller's fixed unit.
#[derive(Clone, Copy, Debug, PartialEq, Eq, Structural)]
pub struct Point {
    pub x: i64,
    pub y: i64,
}

/// One drone's reported state at snapshot time.
///
/// `position` is `None` where the feed reported a coordinate that is not a
/// number; such a drone is never inside the fence.
#[derive(Debug)]
pub struct DroneObservation {
    pub serial_number: String,
    pub model: String,
    pub manufacturer: String,
    pub mac: String,
    pub ipv4: String,
    pub ipv6: String,
    pub firmware: String,
    pub position: Option<Point>,
    pub altitude: Option<i64>,
}

/// The receiving device's metadata: carried through, never inspected.
#[derive(Debug)]
pub struct DeviceInformation {
    pub listen_range: Option<i64>,
    pub device_started: String,
    pub uptime_seconds: i64,
    pub update_interval_ms: i64,
}

/// One poll of the telemetry feed.
#[derive(Debug)]
pub struct TelemetrySnapshot {
    pub device_information: DeviceInformation,
    pub snapshot_timestamp: String,
    pub drones: Vec<DroneObservation>,
}

/// A pilot's contact profile, as the pilot directory returns it.
#[derive(Debug)]
pub struct PilotRecord {
    pub pilot_id: String,
    pub first_name: String,
    pub last_name: String,
    pub phone_number: String,
    pub created_dt: String,
    pub email: String,
}

impl PilotRecord {
    /// A field-by-field copy, equal to `self`.
    pub fn copy(&self) -> (r: PilotRecord)
        ensures
            r == *self,
    {
        PilotRecord {
            pilot_id: self.pilot_id.clone(),
            first_name: self.first_name.clone(),
            last_name: self.last_name.clone(),
            phone_number: self.phone_number.clone(),
            created_dt: self.created_dt.clone(),
            email: self.email.clone(),
        }
    }
}

/// What went wrong in one remote call.
#[derive(Clone, Copy, Debug, PartialEq, Eq, Structural)]
pub enum ErrorKind {
    /// The request did not complete, or the status was not a success.
    Fetch,
    /// The body did not match the expected schema.
    Parse,
}

/// The pipeline component where an error arose.
#[derive(Clone, Copy, Debug, PartialEq, Eq, Structural)]
pub enum Component {
    TelemetryFetcher,
    PilotResolver,
}

/// A classified error with its origin and, for a pilot lookup, the serial
/// number that was being resolved.
#[derive(Debug)]
pub struct PipelineError {
    pub component: Component,
    pub kind: ErrorKind,
    pub serial_number: Option<String>,
}

} // verus!
