//! The point-in-time view of a device that entities read on refresh.
//!
//! The device store itself lives outside this crate; entities hold only
//! identifiers, and each refresh is handed an independent snapshot of the
//! record those identifiers name. Telemetry numbers are carried in hundredths
//! of a unit; the structured state views the store computes per transport are
//! carried in their textual form.

use vstd::prelude::*;
use crate::units::{HumidityUnits, TemperatureUnits, mag, READING_LIMIT};

verus! {

/// Latest timestamp, in seconds since the epoch, that a snapshot may carry.
pub const EPOCH_LIMIT: i64 = 4_000_000_000;

/// One device as a discovery pass sees it: its raw id and display name.
#[derive(Clone, Debug)]
pub struct DeviceRecord {
    pub id: String,
    pub name: String,
}

/// Per-device overrides describing the unit systems the hardware actually
/// reports in, resolved from the device record.
#[derive(Clone, Copy, Debug, PartialEq, Eq, Structural)]
pub struct Quirk {
    pub platform_temperature_sensor_units: Option<TemperatureUnits>,
    pub platform_humidity_sensor_units: Option<HumidityUnits>,
}

/// What the adapter reads of one capability's semi-structured state
/// document.
#[derive(Clone, Debug)]
pub struct CapabilityState {
    /// The numeric field at path `value`, in hundredths, when present and
    /// numeric.
    pub value_centi: Option<i64>,
    /// The numeric field at path `value.currentHumidity`, in hundredths,
    /// when present and numeric.
    pub humidity_centi: Option<i64>,
    /// The document's full textual form.
    pub text: String,
}

impl CapabilityState {
    /// Numeric fields, where present, are within the accepted reading range.
    pub open spec fn wf(self) -> bool {
        &&& (self.value_centi is Some ==> mag(self.value_centi->0 as int) <= READING_LIMIT)
        &&& (self.humidity_centi is Some ==> mag(self.humidity_centi->0 as int) <= READING_LIMIT)
    }
}

/// One named telemetry point of a device, with its state document.
#[derive(Clone, Debug)]
pub struct DeviceCapability {
    pub instance: String,
    pub state: CapabilityState,
}

/// The capability list a device reported over its HTTP transport, together
/// with the textual form of the whole report.
#[derive(Clone, Debug)]
pub struct HttpDeviceState {
    pub capabilities: Vec<DeviceCapability>,
    pub text: String,
}

impl HttpDeviceState {
    pub open spec fn wf(self) -> bool {
        forall|i: int| 0 <= i < self.capabilities@.len() ==> (#[trigger] self.capabilities@[i]).state.wf()
    }
}

/// The device's merged cross-transport state: when it was last updated, and
/// its textual form.
#[derive(Clone, Debug)]
pub struct MergedState {
    pub updated_epoch_s: i64,
    pub text: String,
}

impl MergedState {
    pub open spec fn wf(self) -> bool {
        0 <= self.updated_epoch_s <= EPOCH_LIMIT
    }
}

/// A point-in-time view of one device: its HTTP-sourced capability list, its
/// quirk, the per-transport state views the store computed (textual form),
/// the platform metadata, and the merged state.
#[derive(Clone, Debug)]
pub struct DeviceSnapshot {
    pub http_device_state: Option<HttpDeviceState>,
    pub quirk: Option<Quirk>,
    pub iot_state: Option<String>,
    pub lan_state: Option<String>,
    pub http_state: Option<String>,
    pub platform_metadata: Option<String>,
    pub merged_state: Option<MergedState>,
}

impl DeviceSnapshot {
    pub open spec fn wf(self) -> bool {
        &&& (self.http_device_state is Some ==> self.http_device_state->0.wf())
        &&& (self.merged_state is Some ==> self.merged_state->0.wf())
    }
}

} // verus!
