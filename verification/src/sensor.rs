//! The three sensor entity kinds and their publish/refresh decisions.
//!
//! Each entity exposes its discovery config (published once and on
//! reconnect) and a state resolution: given a point-in-time snapshot of its
//! device, decide what to publish, if anything. The entities hold only
//! identifiers and their config; the device store, the transport and the
//! clock stay outside and hand plain values in.

use vstd::prelude::*;
use vstd::string::StringExecFns;
use crate::config::{
    opt_text, sensor_attributes_topic, sensor_config_views_equal, sensor_state_topic,
    spec_sensor_attributes_topic, spec_sensor_state_topic, DeviceRef, EntityConfig, Origin,
    SensorConfig,
};
use crate::device::{
    CapabilityState, DeviceCapability, DeviceRecord, DeviceSnapshot, Quirk, EPOCH_LIMIT,
};
use crate::ident::{availability_topic, str_eq, topic_safe_seq, topic_safe_string};
use crate::render::{format_centi, spec_centi};
use crate::units::{ctof, spec_ctof, HumidityUnits, TemperatureUnits};

verus! {

/// The structured attributes document a status entity publishes beside its
/// summary: the per-transport state views, the platform metadata and state,
/// and the merged overall state, each in its textual form where present.
#[derive(Clone, Debug, PartialEq, Eq)]
pub struct StatusAttributes {
    pub iot: Option<String>,
    pub lan: Option<String>,
    pub http: Option<String>,
    pub platform_metadata: Option<String>,
    pub platform_state: Option<String>,
    pub overall: Option<String>,
}

/// What one refresh decided to publish.
#[derive(Clone, Debug, PartialEq, Eq)]
pub enum StateOutput {
    /// Nothing to publish: the refresh is a silent no-op.
    Nothing,
    /// Publish `value` on `topic`.
    Publish { topic: String, value: String },
    /// Publish `value` on `topic`, and a structured attributes document on
    /// `attributes_topic`.
    PublishWithAttributes {
        topic: String,
        value: String,
        attributes_topic: String,
        attributes: StatusAttributes,
    },
}

/// Display name a capability instance is shown under; unknown instances pass
/// their raw name through.
pub open spec fn spec_display_name(instance: Seq<char>) -> Seq<char> {
    if instance == "sensorTemperature"@ {
        "Temperature"@
    } else if instance == "sensorHumidity"@ {
        "Humidity"@
    } else if instance == "online"@ {
        "Connected to Govee Cloud"@
    } else {
        instance
    }
}

/// Unit of measurement a capability instance is displayed in, if any.
pub open spec fn spec_unit(instance: Seq<char>) -> Option<Seq<char>> {
    if instance == "sensorTemperature"@ {
        Some("°C"@)
    } else if instance == "sensorHumidity"@ {
        Some("%"@)
    } else {
        None
    }
}

/// Unique id of a capability entity: derived from the device id, the
/// instance name and the unit variant alone.
pub open spec fn spec_capability_unique_id(
    device_id: Seq<char>,
    instance: Seq<char>,
    imperial: bool,
) -> Seq<char> {
    "sensor-"@ + topic_safe_seq(device_id) + "-"@ + topic_safe_seq(instance) + (
    if imperial {
        "_F"@
    } else {
        Seq::<char>::empty()
    })
}

/// Unique id of the fixed service-level diagnostic named `name`.
pub open spec fn spec_global_unique_id(name: Seq<char>) -> Seq<char> {
    "global-"@ + topic_safe_seq(name)
}

/// Unique id of a device's status diagnostic.
pub open spec fn spec_status_unique_id(device_id: Seq<char>) -> Seq<char> {
    "sensor-"@ + topic_safe_seq(device_id) + "-gv2mqtt-status"@
}

/// The shared config fields every entity of this crate publishes: the fixed
/// availability topic, diagnostic category, the bridge's origin, no device
/// class and no icon.
pub open spec fn common_config_matches(c: EntityConfig) -> bool {
    &&& c.availability_topic@ == "gv2mqtt/availability"@
    &&& c.entity_category matches Some(cat) && cat@ == "diagnostic"@
    &&& c.origin.name@ == "gv2mqtt"@
    &&& c.device_class is None
    &&& c.icon is None
}

/// The discovery config of the fixed service-level diagnostic named `name`:
/// a function of the name alone.
pub open spec fn global_fixed_config_matches(c: SensorConfig, name: Seq<char>) -> bool {
    &&& common_config_matches(c.base)
    &&& c.base.name matches Some(n) && n@ == name
    &&& c.base.device.name@ == "gv2mqtt"@
    &&& c.base.device.identifier@ == "gv2mqtt"@
    &&& c.base.unique_id@ == spec_global_unique_id(name)
    &&& c.state_topic@ == spec_sensor_state_topic(spec_global_unique_id(name))
    &&& c.unit_of_measurement is None
    &&& c.json_attributes_topic is None
}

/// The discovery config of the native-unit sensor of one capability
/// instance: a function of the device id, the device name and the instance
/// name alone.
pub open spec fn capability_config_matches(
    c: SensorConfig,
    device_id: Seq<char>,
    device_name: Seq<char>,
    instance: Seq<char>,
) -> bool {
    &&& common_config_matches(c.base)
    &&& c.base.name matches Some(n) && n@ == spec_display_name(instance)
    &&& c.base.device.name@ == device_name
    &&& c.base.device.identifier@ == topic_safe_seq(device_id)
    &&& c.base.unique_id@ == spec_capability_unique_id(device_id, instance, false)
    &&& c.state_topic@ == spec_sensor_state_topic(
        spec_capability_unique_id(device_id, instance, false),
    )
    &&& opt_text(c.unit_of_measurement) == spec_unit(instance)
    &&& c.json_attributes_topic is None
}

/// The discovery config of a device's status diagnostic: a function of the
/// device id and the device name alone.
pub open spec fn status_config_matches(
    c: SensorConfig,
    device_id: Seq<char>,
    device_name: Seq<char>,
) -> bool {
    &&& common_config_matches(c.base)
    &&& c.base.name matches Some(n) && n@ == "Status"@
    &&& c.base.device.name@ == device_name
    &&& c.base.device.identifier@ == topic_safe_seq(device_id)
    &&& c.base.unique_id@ == spec_status_unique_id(device_id)
    &&& c.state_topic@ == spec_sensor_state_topic(spec_status_unique_id(device_id))
    &&& c.unit_of_measurement is None
    &&& c.json_attributes_topic matches Some(t) && t@ == spec_sensor_attributes_topic(
        spec_status_unique_id(device_id),
    )
}

/// Temperature unit system a device's quirk resolves to; Celsius absent a
/// quirk or an override.
pub open spec fn spec_temperature_units(quirk: Option<Quirk>) -> TemperatureUnits {
    if quirk matches Some(q) && q.platform_temperature_sensor_units matches Some(u) {
        quirk->0.platform_temperature_sensor_units->0
    } else {
        TemperatureUnits::Celsius
    }
}

/// Humidity unit system a device's quirk resolves to; relative percent
/// absent a quirk or an override.
pub open spec fn spec_humidity_units(quirk: Option<Quirk>) -> HumidityUnits {
    if quirk matches Some(q) && q.platform_humidity_sensor_units matches Some(u) {
        quirk->0.platform_humidity_sensor_units->0
    } else {
        HumidityUnits::RelativePercent
    }
}

/// First capability of the list whose instance name matches; instance names
/// are expected unique per device, first match wins.
pub open spec fn spec_find_capability(
    caps: Seq<DeviceCapability>,
    instance: Seq<char>,
) -> Option<DeviceCapability>
    decreases caps.len(),
{
    if caps.len() == 0 {
        None
    } else if caps[0].instance@ == instance {
        Some(caps[0])
    } else {
        spec_find_capability(caps.subrange(1, caps.len() as int), instance)
    }
}

proof fn lemma_find_capability_skip(caps: Seq<DeviceCapability>, instance: Seq<char>, i: int)
    requires
        0 <= i <= caps.len(),
        forall|j: int| 0 <= j < i ==> (#[trigger] caps[j]).instance@ != instance,
    ensures
        spec_find_capability(caps, instance) == spec_find_capability(
            caps.subrange(i, caps.len() as int),
            instance,
        ),
    decreases i,
{
    if i > 0 {
        let tail = caps.subrange(1, caps.len() as int);
        lemma_find_capability_skip(tail, instance, i - 1);
        assert(tail.subrange(i - 1, tail.len() as int) =~= caps.subrange(i, caps.len() as int));
    } else {
        assert(caps.subrange(0, caps.len() as int) =~= caps);
    }
}

/// The display text a capability refresh publishes, as a function of the
/// instance name, the display unit variant, the device's quirk and the
/// capability's state document: temperature readings are normalized to
/// Celsius and rendered in the display unit, humidity readings are
/// normalized to relative percent, a missing or non-numeric source renders
/// as the empty string, and any other instance passes its state document's
/// text through.
pub open spec fn spec_capability_value(
    instance: Seq<char>,
    display_fahrenheit: bool,
    quirk: Option<Quirk>,
    state: CapabilityState,
) -> Seq<char> {
    if instance == "sensorTemperature"@ {
        match state.value_centi {
            Some(v) => {
                let c = spec_temperature_units(quirk).spec_from_reading_to_celsius(v as int);
                if display_fahrenheit {
                    spec_centi(spec_ctof(c))
                } else {
                    spec_centi(c)
                }
            },
            None => Seq::<char>::empty(),
        }
    } else if instance == "sensorHumidity"@ {
        match state.humidity_centi {
            Some(v) => spec_centi(
                spec_humidity_units(quirk).spec_from_reading_to_relative_percent(v as int),
            ),
            None => Seq::<char>::empty(),
        }
    } else {
        state.text@
    }
}

/// The summary a status refresh publishes: `Unknown` without a merged state,
/// `Missing` when the merged state's timestamp lies more than the poll
/// interval plus a thirty-second grace period in the past, `Available`
/// otherwise (the threshold itself still counts as available).
pub open spec fn spec_status_summary(
    merged_updated: Option<int>,
    now: int,
    poll_interval_s: int,
) -> Seq<char> {
    match merged_updated {
        None => "Unknown"@,
        Some(t) => if now - t > poll_interval_s + 30 {
            "Missing"@
        } else {
            "Available"@
        },
    }
}

/// The merged-state timestamp of a snapshot, if it has one.
pub open spec fn spec_merged_updated(s: DeviceSnapshot) -> Option<int> {
    match s.merged_state {
        Some(m) => Some(m.updated_epoch_s as int),
        None => None,
    }
}

/// Display name for a capability instance.
fn display_name_for(instance: &str) -> (r: String)
    ensures
        r@ == spec_display_name(instance@),
{
    if str_eq(instance, "sensorTemperature") {
        "Temperature".to_owned()
    } else if str_eq(instance, "sensorHumidity") {
        "Humidity".to_owned()
    } else if str_eq(instance, "online") {
        "Connected to Govee Cloud".to_owned()
    } else {
        instance.to_owned()
    }
}

/// Display unit for a capability instance.
fn unit_for(instance: &str) -> (r: Option<String>)
    ensures
        opt_text(r) == spec_unit(instance@),
{
    if str_eq(instance, "sensorTemperature") {
        Some("°C".to_owned())
    } else if str_eq(instance, "sensorHumidity") {
        Some("%".to_owned())
    } else {
        None
    }
}

/// Copy of an optional textual value.
fn copy_opt_text(o: &Option<String>) -> (r: Option<String>)
    ensures
        opt_text(r) == opt_text(*o),
{
    match o {
        Some(s) => Some(s.as_str().to_owned()),
        None => None,
    }
}

/// A constant service-level diagnostic value, unrelated to any device; it
/// never changes after construction.
#[derive(Clone, Debug)]
pub struct GlobalFixedDiagnostic {
    sensor: SensorConfig,
    value: String,
}

impl GlobalFixedDiagnostic {
    /// The discovery config this entity publishes.
    pub closed spec fn spec_config(self) -> SensorConfig {
        self.sensor
    }

    /// The fixed value this entity publishes.
    pub closed spec fn spec_value(self) -> Seq<char> {
        self.value@
    }

    /// Builds the diagnostic entity named `name` that always reports
    /// `value`.
    pub fn new(name: &str, value: &str) -> (r: Self)
        ensures
            global_fixed_config_matches(r.spec_config(), name@),
            r.spec_value() == value@,
    {
        let mut unique_id = "global-".to_owned();
        let safe = topic_safe_string(name);
        unique_id.append(safe.as_str());
        let state_topic = sensor_state_topic(unique_id.as_str());
        GlobalFixedDiagnostic {
            sensor: SensorConfig {
                base: EntityConfig {
                    availability_topic: availability_topic(),
                    name: Some(name.to_owned()),
                    entity_category: Some("diagnostic".to_owned()),
                    origin: Origin::default(),
                    device: DeviceRef::this_service(),
                    unique_id,
                    device_class: None,
                    icon: None,
                },
                state_topic,
                unit_of_measurement: None,
                json_attributes_topic: None,
            },
            value: value.to_owned(),
        }
    }

    /// The discovery config to publish (idempotent: a pure read).
    pub fn config(&self) -> (r: &SensorConfig)
        ensures
            *r == self.spec_config(),
    {
        &self.sensor
    }

    /// Decides what a refresh publishes: always the fixed value, on the
    /// entity's state topic.
    pub fn resolve_state(&self) -> (r: StateOutput)
        ensures
            r matches StateOutput::Publish { topic, value } && topic@ == self.spec_config().state_topic@
                && value@ == self.spec_value(),
    {
        StateOutput::Publish {
            topic: self.sensor.state_topic.as_str().to_owned(),
            value: self.value.as_str().to_owned(),
        }
    }
}

/// A live sensor bound to one (device id, capability instance) pair. It does
/// not own device state: each refresh is handed a fresh snapshot looked up
/// by the identifiers it holds.
#[derive(Clone, Debug)]
pub struct CapabilitySensor {
    sensor: SensorConfig,
    device_id: String,
    instance_name: String,
}

impl CapabilitySensor {
    /// The discovery config this entity publishes.
    pub closed spec fn spec_config(self) -> SensorConfig {
        self.sensor
    }

    /// The device id this entity looks up on refresh.
    pub closed spec fn spec_device_id(self) -> Seq<char> {
        self.device_id@
    }

    /// The capability instance this entity is bound to.
    pub closed spec fn spec_instance_name(self) -> Seq<char> {
        self.instance_name@
    }

    /// Whether this entity displays in Fahrenheit.
    pub open spec fn spec_is_imperial(self) -> bool {
        opt_text(self.spec_config().unit_of_measurement) == Some("°F"@)
    }

    /// Builds the sensor entity for one capability instance of a device,
    /// displaying in the instance's native unit.
    pub fn new(device: &DeviceRecord, instance: &DeviceCapability) -> (r: Self)
        ensures
            capability_config_matches(
                r.spec_config(),
                device.id@,
                device.name@,
                instance.instance@,
            ),
            r.spec_device_id() == device.id@,
            r.spec_instance_name() == instance.instance@,
    {
        let mut unique_id = "sensor-".to_owned();
        let safe_id = topic_safe_string(device.id.as_str());
        unique_id.append(safe_id.as_str());
        unique_id.append("-");
        let safe_inst = topic_safe_string(instance.instance.as_str());
        unique_id.append(safe_inst.as_str());
        let state_topic = sensor_state_topic(unique_id.as_str());
        CapabilitySensor {
            sensor: SensorConfig {
                base: EntityConfig {
                    availability_topic: availability_topic(),
                    name: Some(display_name_for(instance.instance.as_str())),
                    entity_category: Some("diagnostic".to_owned()),
                    origin: Origin::default(),
                    device: DeviceRef::for_device(device),
                    unique_id,
                    device_class: None,
                    icon: None,
                },
                state_topic,
                unit_of_measurement: unit_for(instance.instance.as_str()),
                json_attributes_topic: None,
            },
            device_id: device.id.as_str().to_owned(),
            instance_name: instance.instance.as_str().to_owned(),
        }
    }

    /// Derives the imperial variant of a temperature sensor: same underlying
    /// capability, unit forced to Fahrenheit, unique id and state topic
    /// suffixed, display name marked. On any other instance the derivation
    /// is rejected and yields no entity.
    pub fn into_temperature_farenheit(self) -> (r: Option<Self>)
        ensures
            self.spec_instance_name() != "sensorTemperature"@ ==> r is None,
            self.spec_instance_name() == "sensorTemperature"@ ==> (r matches Some(t) && {
                &&& t.spec_config().base.unique_id@ == self.spec_config().base.unique_id@ + "_F"@
                &&& t.spec_config().state_topic@ == self.spec_config().state_topic@ + "_F"@
                &&& opt_text(t.spec_config().unit_of_measurement) == Some("°F"@)
                &&& t.spec_config().base.name matches Some(n) && n@ == "Temperature (imperial)"@
                &&& t.spec_config().base.availability_topic == self.spec_config().base.availability_topic
                &&& t.spec_config().base.entity_category == self.spec_config().base.entity_category
                &&& t.spec_config().base.origin == self.spec_config().base.origin
                &&& t.spec_config().base.device == self.spec_config().base.device
                &&& t.spec_config().base.device_class == self.spec_config().base.device_class
                &&& t.spec_config().base.icon == self.spec_config().base.icon
                &&& t.spec_config().json_attributes_topic
                    == self.spec_config().json_attributes_topic
                &&& t.spec_device_id() == self.spec_device_id()
                &&& t.spec_instance_name() == self.spec_instance_name()
            }),
    {
        if !str_eq(self.instance_name.as_str(), "sensorTemperature") {
            return None;
        }
        let mut s = self;
        s.sensor.unit_of_measurement = Some("°F".to_owned());
        s.sensor.base.unique_id.append("_F");
        s.sensor.state_topic.append("_F");
        s.sensor.base.name = Some("Temperature (imperial)".to_owned());
        Some(s)
    }

    /// The discovery config to publish (idempotent: a pure read).
    pub fn config(&self) -> (r: &SensorConfig)
        ensures
            *r == self.spec_config(),
    {
        &self.sensor
    }

    /// The device id to look this entity's snapshot up under.
    pub fn device_id(&self) -> (r: &str)
        ensures
            r@ == self.spec_device_id(),
    {
        self.device_id.as_str()
    }

    /// Decides what a refresh publishes, from a point-in-time snapshot of
    /// this entity's device: the computed display text of the matching
    /// capability on the entity's state topic; a silent no-op when the
    /// device has left the store, exposes no HTTP snapshot, or the snapshot
    /// lacks the target instance.
    #[verifier::loop_isolation(false)]
    pub fn resolve_state(&self, device: Option<&DeviceSnapshot>) -> (r: StateOutput)
        requires
            device matches Some(d) ==> d.wf(),
        ensures
            (match device {
                None => r is Nothing,
                Some(d) => {
                    match d.http_device_state {
                        None => r is Nothing,
                        Some(http) => {
                            match spec_find_capability(
                                http.capabilities@,
                                self.spec_instance_name(),
                            ) {
                                None => r is Nothing,
                                Some(cap) => r matches StateOutput::Publish { topic, value }
                                    && topic@ == self.spec_config().state_topic@ && value@
                                    == spec_capability_value(
                                    self.spec_instance_name(),
                                    self.spec_is_imperial(),
                                    d.quirk,
                                    cap.state,
                                ),
                            }
                        },
                    }
                },
            }),
    {
        let d = match device {
            Some(d) => d,
            None => {
                return StateOutput::Nothing;
            },
        };
        let http = match &d.http_device_state {
            Some(http) => http,
            None => {
                return StateOutput::Nothing;
            },
        };
        let ghost caps = http.capabilities@;
        let ghost inst = self.instance_name@;
        let n = http.capabilities.len();
        let mut idx: usize = 0;
        while idx < n
            invariant
                idx <= n,
                forall|j: int| 0 <= j < idx ==> (#[trigger] caps[j]).instance@ != inst,
            decreases n - idx,
        {
            let cap = &http.capabilities[idx];
            if str_eq(cap.instance.as_str(), self.instance_name.as_str()) {
                proof {
                    lemma_find_capability_skip(caps, inst, idx as int);
                    let tail = caps.subrange(idx as int, caps.len() as int);
                    assert(spec_find_capability(tail, inst) == Some(tail[0]));
                    assert(caps[idx as int].state.wf());
                }
                let value = self.capability_value(d.quirk, &cap.state);
                return StateOutput::Publish {
                    topic: self.sensor.state_topic.as_str().to_owned(),
                    value,
                };
            }
            idx += 1;
        }
        proof {
            lemma_find_capability_skip(caps, inst, n as int);
        }
        StateOutput::Nothing
    }

    /// Computes the display text for one capability state document of this
    /// entity's instance.
    fn capability_value(&self, quirk: Option<Quirk>, state: &CapabilityState) -> (r: String)
        requires
            state.wf(),
        ensures
            r@ == spec_capability_value(
                self.spec_instance_name(),
                self.spec_is_imperial(),
                quirk,
                *state,
            ),
    {
        if str_eq(self.instance_name.as_str(), "sensorTemperature") {
            match state.value_centi {
                Some(v) => {
                    let units = match quirk {
                        Some(q) => match q.platform_temperature_sensor_units {
                            Some(u) => u,
                            None => TemperatureUnits::Celsius,
                        },
                        None => TemperatureUnits::Celsius,
                    };
                    let c = units.from_reading_to_celsius(v);
                    let display_f = match &self.sensor.unit_of_measurement {
                        Some(u) => str_eq(u.as_str(), "°F"),
                        None => false,
                    };
                    if display_f {
                        format_centi(ctof(c))
                    } else {
                        format_centi(c)
                    }
                },
                None => String::new(),
            }
        } else if str_eq(self.instance_name.as_str(), "sensorHumidity") {
            match state.humidity_centi {
                Some(v) => {
                    let units = match quirk {
                        Some(q) => match q.platform_humidity_sensor_units {
                            Some(u) => u,
                            None => HumidityUnits::RelativePercent,
                        },
                        None => HumidityUnits::RelativePercent,
                    };
                    format_centi(units.from_reading_to_relative_percent(v))
                },
                None => String::new(),
            }
        } else {
            state.text.as_str().to_owned()
        }
    }
}

/// A per-device diagnostic that aggregates the device's independently
/// sourced state views into one availability summary plus a structured
/// attributes document.
#[derive(Clone, Debug)]
pub struct DeviceStatusDiagnostic {
    sensor: SensorConfig,
    device_id: String,
    poll_interval_s: i64,
}

impl DeviceStatusDiagnostic {
    /// The discovery config this entity publishes.
    pub closed spec fn spec_config(self) -> SensorConfig {
        self.sensor
    }

    /// The device id this entity looks up on refresh.
    pub closed spec fn spec_device_id(self) -> Seq<char> {
        self.device_id@
    }

    /// The poll interval, in seconds, the staleness threshold is derived
    /// from.
    pub closed spec fn spec_poll_interval_s(self) -> int {
        self.poll_interval_s as int
    }

    /// Builds the status diagnostic of a device. The poll interval the
    /// external driver refreshes on is threaded in here; the staleness
    /// threshold is that interval plus a thirty-second grace period.
    pub fn new(device: &DeviceRecord, poll_interval_s: i64) -> (r: Self)
        requires
            0 <= poll_interval_s <= EPOCH_LIMIT,
        ensures
            status_config_matches(r.spec_config(), device.id@, device.name@),
            r.spec_device_id() == device.id@,
            r.spec_poll_interval_s() == poll_interval_s,
    {
        let mut unique_id = "sensor-".to_owned();
        let safe_id = topic_safe_string(device.id.as_str());
        unique_id.append(safe_id.as_str());
        unique_id.append("-gv2mqtt-status");
        let state_topic = sensor_state_topic(unique_id.as_str());
        let attributes_topic = sensor_attributes_topic(unique_id.as_str());
        DeviceStatusDiagnostic {
            sensor: SensorConfig {
                base: EntityConfig {
                    availability_topic: availability_topic(),
                    name: Some("Status".to_owned()),
                    entity_category: Some("diagnostic".to_owned()),
                    origin: Origin::default(),
                    device: DeviceRef::for_device(device),
                    unique_id,
                    device_class: None,
                    icon: None,
                },
                state_topic,
                unit_of_measurement: None,
                json_attributes_topic: Some(attributes_topic),
            },
            device_id: device.id.as_str().to_owned(),
            poll_interval_s,
        }
    }

    /// The discovery config to publish (idempotent: a pure read).
    pub fn config(&self) -> (r: &SensorConfig)
        ensures
            *r == self.spec_config(),
    {
        &self.sensor
    }

    /// The device id to look this entity's snapshot up under.
    pub fn device_id(&self) -> (r: &str)
        ensures
            r@ == self.spec_device_id(),
    {
        self.device_id.as_str()
    }

    /// The poll interval this entity's staleness threshold is derived from.
    pub fn poll_interval_s(&self) -> (r: i64)
        ensures
            r == self.spec_poll_interval_s(),
    {
        self.poll_interval_s
    }

    /// Decides what a refresh publishes, from a point-in-time snapshot of
    /// this entity's device and the current time: the three-state summary on
    /// the entity's state topic, and — when an attributes topic is
    /// configured — the aggregate of the device's state views beside it. A
    /// silent no-op when the device has left the store.
    pub fn resolve_state(&self, device: Option<&DeviceSnapshot>, now_epoch_s: i64) -> (r:
        StateOutput)
        requires
            device matches Some(d) ==> d.wf(),
            0 <= now_epoch_s <= EPOCH_LIMIT,
            0 <= self.spec_poll_interval_s() <= EPOCH_LIMIT,
        ensures
            (match device {
                None => r is Nothing,
                Some(d) => {
                    let summary = spec_status_summary(
                        spec_merged_updated(*d),
                        now_epoch_s as int,
                        self.spec_poll_interval_s(),
                    );
                    match self.spec_config().json_attributes_topic {
                        Some(at) => r matches StateOutput::PublishWithAttributes {
                            topic,
                            value,
                            attributes_topic,
                            attributes,
                        } && topic@ == self.spec_config().state_topic@ && value@ == summary
                            && attributes_topic@ == at@ && attributes_match(attributes, *d),
                        None => r matches StateOutput::Publish { topic, value } && topic@
                            == self.spec_config().state_topic@ && value@ == summary,
                    }
                },
            }),
    {
        let d = match device {
            Some(d) => d,
            None => {
                return StateOutput::Nothing;
            },
        };
        let summary: String = match &d.merged_state {
            Some(m) => {
                let threshold = self.poll_interval_s + 30;
                if now_epoch_s - m.updated_epoch_s > threshold {
                    "Missing".to_owned()
                } else {
                    "Available".to_owned()
                }
            },
            None => "Unknown".to_owned(),
        };
        match &self.sensor.json_attributes_topic {
            Some(topic) => {
                let attributes = StatusAttributes {
                    iot: copy_opt_text(&d.iot_state),
                    lan: copy_opt_text(&d.lan_state),
                    http: copy_opt_text(&d.http_state),
                    platform_metadata: copy_opt_text(&d.platform_metadata),
                    platform_state: (match &d.http_device_state {
                        Some(h) => Some(h.text.as_str().to_owned()),
                        None => None,
                    }),
                    overall: (match &d.merged_state {
                        Some(m) => Some(m.text.as_str().to_owned()),
                        None => None,
                    }),
                };
                StateOutput::PublishWithAttributes {
                    topic: self.sensor.state_topic.as_str().to_owned(),
                    value: summary,
                    attributes_topic: topic.as_str().to_owned(),
                    attributes,
                }
            },
            None => StateOutput::Publish {
                topic: self.sensor.state_topic.as_str().to_owned(),
                value: summary,
            },
        }
    }
}

/// Whether an attributes document is exactly the aggregate of a snapshot's
/// state views: the three per-transport views, the platform metadata, the
/// textual platform state, and the merged overall state.
pub open spec fn attributes_match(a: StatusAttributes, d: DeviceSnapshot) -> bool {
    &&& opt_text(a.iot) == opt_text(d.iot_state)
    &&& opt_text(a.lan) == opt_text(d.lan_state)
    &&& opt_text(a.http) == opt_text(d.http_state)
    &&& opt_text(a.platform_metadata) == opt_text(d.platform_metadata)
    &&& (match d.http_device_state {
        Some(h) => a.platform_state matches Some(t) && t@ == h.text@,
        None => a.platform_state is None,
    })
    &&& (match d.merged_state {
        Some(m) => a.overall matches Some(t) && t@ == m.text@,
        None => a.overall is None,
    })
}

/// Law: capability discovery is deterministic: any two capability entities
/// built for the same device and instance carry view-identical discovery
/// payloads, so re-running a discovery pass re-sends the same payload.
pub proof fn lemma_capability_config_deterministic(
    a: SensorConfig,
    b: SensorConfig,
    device_id: Seq<char>,
    device_name: Seq<char>,
    instance: Seq<char>,
)
    requires
        capability_config_matches(a, device_id, device_name, instance),
        capability_config_matches(b, device_id, device_name, instance),
    ensures
        sensor_config_views_equal(a, b),
{
}

/// Law: status discovery is deterministic: any two status entities built for
/// the same device carry view-identical discovery payloads.
pub proof fn lemma_status_config_deterministic(
    a: SensorConfig,
    b: SensorConfig,
    device_id: Seq<char>,
    device_name: Seq<char>,
)
    requires
        status_config_matches(a, device_id, device_name),
        status_config_matches(b, device_id, device_name),
    ensures
        sensor_config_views_equal(a, b),
{
}

/// The imperial variant's unique id is the native variant's id with the
/// imperial suffix: deriving the variant from a freshly built sensor yields
/// the id that the unit-variant spec assigns.
pub proof fn lemma_imperial_unique_id(device_id: Seq<char>, instance: Seq<char>)
    ensures
        spec_capability_unique_id(device_id, instance, true) == spec_capability_unique_id(
            device_id,
            instance,
            false,
        ) + "_F"@,
{
    assert(spec_capability_unique_id(device_id, instance, true) =~= spec_capability_unique_id(
        device_id,
        instance,
        false,
    ) + "_F"@);
}

/// Law: the unique id of a capability entity depends only on the device id,
/// the instance name and the unit variant, so repeated construction assigns
/// the same id.
pub proof fn lemma_unique_id_deterministic(
    id1: Seq<char>,
    inst1: Seq<char>,
    imperial1: bool,
    id2: Seq<char>,
    inst2: Seq<char>,
    imperial2: bool,
)
    requires
        id1 == id2,
        inst1 == inst2,
        imperial1 == imperial2,
    ensures
        spec_capability_unique_id(id1, inst1, imperial1) == spec_capability_unique_id(
            id2,
            inst2,
            imperial2,
        ),
{
}

/// Law: a merged state exactly at the staleness threshold still counts as
/// available, one second past it counts as missing, and a device without a
/// merged state is unknown.
pub proof fn lemma_status_boundary(updated: int, now: int, poll_interval_s: int)
    requires
        now - updated == poll_interval_s + 30,
    ensures
        spec_status_summary(Some(updated), now, poll_interval_s) == "Available"@,
        spec_status_summary(Some(updated), now + 1, poll_interval_s) == "Missing"@,
        spec_status_summary(None, now, poll_interval_s) == "Unknown"@,
{
}

} // verus!
