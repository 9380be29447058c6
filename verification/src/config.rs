//! The declarative discovery payload shape shared by every entity kind.
//!
//! A discovery payload describes an entity's identity, topics and display
//! metadata; the hub renders entities from it. Serializing the payload and
//! sending it are a collaborator's job: this crate fixes the payload's value,
//! and that value is a pure function of the entity it belongs to.

use vstd::prelude::*;
use vstd::string::StringExecFns;
use crate::device::DeviceRecord;
use crate::ident::{topic_safe_id, topic_safe_seq};

verus! {

/// The view of an optional textual field: the character sequence it holds,
/// if any.
pub open spec fn opt_text(o: Option<String>) -> Option<Seq<char>> {
    match o {
        Some(s) => Some(s@),
        None => None,
    }
}

/// Fixed service-identity metadata carried in every discovery payload.
#[derive(Clone, Debug, PartialEq, Eq)]
pub struct Origin {
    pub name: String,
}

impl Default for Origin {
    /// The bridge's own identity.
    fn default() -> (r: Self)
        ensures
            r.name@ == "gv2mqtt"@,
    {
        Origin { name: "gv2mqtt".to_owned() }
    }
}

/// The device a discovery payload belongs to: the bridge itself presented as
/// a virtual device, or a reference to one of the vendor devices it fronts.
#[derive(Clone, Debug, PartialEq, Eq)]
pub struct DeviceRef {
    pub name: String,
    pub identifier: String,
}

impl DeviceRef {
    /// The bridge presented as a virtual device.
    pub fn this_service() -> (r: Self)
        ensures
            r.name@ == "gv2mqtt"@,
            r.identifier@ == "gv2mqtt"@,
    {
        DeviceRef { name: "gv2mqtt".to_owned(), identifier: "gv2mqtt".to_owned() }
    }

    /// A reference to a real device, keyed by the identifier-safe form of
    /// its id.
    pub fn for_device(device: &DeviceRecord) -> (r: Self)
        ensures
            r.name@ == device.name@,
            r.identifier@ == topic_safe_seq(device.id@),
    {
        DeviceRef { name: device.name.as_str().to_owned(), identifier: topic_safe_id(device) }
    }
}

/// The fields every entity's discovery payload carries. Optional fields are
/// omitted from the wire form when absent.
#[derive(Clone, Debug, PartialEq, Eq)]
pub struct EntityConfig {
    pub availability_topic: String,
    pub name: Option<String>,
    pub entity_category: Option<String>,
    pub origin: Origin,
    pub device: DeviceRef,
    pub unique_id: String,
    pub device_class: Option<String>,
    pub icon: Option<String>,
}

/// The discovery payload of a sensor entity: the shared fields plus where
/// its current value, and optionally a structured attributes document, are
/// published.
#[derive(Clone, Debug, PartialEq, Eq)]
pub struct SensorConfig {
    pub base: EntityConfig,
    pub state_topic: String,
    pub unit_of_measurement: Option<String>,
    pub json_attributes_topic: Option<String>,
}

/// The state topic of the sensor entity with this unique id.
pub open spec fn spec_sensor_state_topic(unique_id: Seq<char>) -> Seq<char> {
    "gv2mqtt/sensor/"@ + unique_id + "/state"@
}

/// The attributes topic of the sensor entity with this unique id.
pub open spec fn spec_sensor_attributes_topic(unique_id: Seq<char>) -> Seq<char> {
    "gv2mqtt/sensor/"@ + unique_id + "/attributes"@
}

/// Builds the state topic of the sensor entity with this unique id.
pub fn sensor_state_topic(unique_id: &str) -> (r: String)
    ensures
        r@ == spec_sensor_state_topic(unique_id@),
{
    let mut s = "gv2mqtt/sensor/".to_owned();
    s.append(unique_id);
    s.append("/state");
    s
}

/// Builds the attributes topic of the sensor entity with this unique id.
pub fn sensor_attributes_topic(unique_id: &str) -> (r: String)
    ensures
        r@ == spec_sensor_attributes_topic(unique_id@),
{
    let mut s = "gv2mqtt/sensor/".to_owned();
    s.append(unique_id);
    s.append("/attributes");
    s
}

/// Whether two shared config records carry the same text in every field:
/// they serialize to the same wire form.
pub open spec fn entity_config_views_equal(a: EntityConfig, b: EntityConfig) -> bool {
    &&& a.availability_topic@ == b.availability_topic@
    &&& opt_text(a.name) == opt_text(b.name)
    &&& opt_text(a.entity_category) == opt_text(b.entity_category)
    &&& a.origin.name@ == b.origin.name@
    &&& a.device.name@ == b.device.name@
    &&& a.device.identifier@ == b.device.identifier@
    &&& a.unique_id@ == b.unique_id@
    &&& opt_text(a.device_class) == opt_text(b.device_class)
    &&& opt_text(a.icon) == opt_text(b.icon)
}

/// Whether two sensor configs carry the same text in every field: they
/// serialize to the same wire form.
pub open spec fn sensor_config_views_equal(a: SensorConfig, b: SensorConfig) -> bool {
    &&& entity_config_views_equal(a.base, b.base)
    &&& a.state_topic@ == b.state_topic@
    &&& opt_text(a.unit_of_measurement) == opt_text(b.unit_of_measurement)
    &&& opt_text(a.json_attributes_topic) == opt_text(b.json_attributes_topic)
}

/// Law: publishing the discovery config twice for an unchanged entity hands
/// the discovery collaborator identical payload values. Every entity kind's
/// config accessor is pinned to the one config the entity stores, so any two
/// payloads read from the same unchanged entity are the same value.
pub proof fn lemma_publish_config_idempotent(c: SensorConfig, m1: SensorConfig, m2: SensorConfig)
    requires
        m1 == c,
        m2 == c,
    ensures
        m1 == m2,
        sensor_config_views_equal(m1, m2),
{
}

} // verus!
