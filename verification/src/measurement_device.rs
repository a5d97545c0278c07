//! A device as it is configured, and as it stands once it is registered.

use vstd::prelude::*;
use crate::hem::{DeviceId, SensorIds};

verus! {

/// A device to take measurements from, as the configuration names it.
#[derive(Debug)]
pub struct Measurement {
    pub mqtt_topic: String,
    pub device_name: String,
    pub device_location: String,
}

/// A device to take measurements from, with the identifiers under which
/// the remote store knows it.
#[derive(Debug)]
pub struct MeasurementDevice {
    pub mqtt_topic: String,
    pub device_id: DeviceId,
    pub sensor_ids: SensorIds,
}

} // verus!
