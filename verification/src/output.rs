//! What a sensor emits, and the configuration of an output instance.

use vstd::prelude::*;
use crate::generator::GenerationResult;

verus! {

/// One value of one sensor at one instant.
#[derive(Debug)]
pub struct SensorPayload {
    /// The id of the sensor.
    pub id: u128,
    /// The path of the device the sensor belongs to, such as `/building-1/floor-1`.
    pub device_path: String,
    /// The name of the sensor.
    pub name: String,
    /// The metadata of the sensor.
    pub metadata: Vec<(String, String)>,
    /// The instant of the value, in nanoseconds since the epoch.
    pub timestamp: i128,
    /// The value.
    pub value: GenerationResult,
}

/// The configuration of one output instance.
#[derive(Debug)]
pub struct OutputConfig {
    /// The plugin that sends the payloads.
    pub output_id: String,
    /// The name of the instance.
    pub instance_id: String,
    /// The arguments that the plugin creates the instance with.
    pub params: Vec<(String, String)>,
}

} // verus!
