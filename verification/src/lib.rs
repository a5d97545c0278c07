//! A bridge for sensor telemetry: it decodes the readings that field devices
//! publish, routes each topic to the device it was registered for, and plans
//! the measurement writes that a remote store is to receive.

pub mod config;
pub mod error;
pub mod hem;
pub mod json;
pub mod measurement_device;
pub mod mqtt;
