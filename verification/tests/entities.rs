use gv2mqtt::device::{
    CapabilityState, DeviceCapability, DeviceRecord, DeviceSnapshot, HttpDeviceState, MergedState,
    Quirk,
};
use gv2mqtt::sensor::{
    CapabilitySensor, DeviceStatusDiagnostic, GlobalFixedDiagnostic, StateOutput,
};
use gv2mqtt::units::{HumidityUnits, TemperatureUnits};

fn device() -> DeviceRecord {
    DeviceRecord { id: "AA:BB:CC:DD".to_string(), name: "Thermometer".to_string() }
}

fn temperature_capability(value_centi: Option<i64>) -> DeviceCapability {
    DeviceCapability {
        instance: "sensorTemperature".to_string(),
        state: CapabilityState {
            value_centi,
            humidity_centi: None,
            text: "{}".to_string(),
        },
    }
}

fn humidity_capability(humidity_centi: Option<i64>) -> DeviceCapability {
    DeviceCapability {
        instance: "sensorHumidity".to_string(),
        state: CapabilityState {
            value_centi: None,
            humidity_centi,
            text: "{}".to_string(),
        },
    }
}

fn snapshot(caps: Vec<DeviceCapability>, quirk: Option<Quirk>) -> DeviceSnapshot {
    DeviceSnapshot {
        http_device_state: Some(HttpDeviceState { capabilities: caps, text: "{}".to_string() }),
        quirk,
        iot_state: None,
        lan_state: None,
        http_state: None,
        platform_metadata: None,
        merged_state: None,
    }
}

#[test]
fn publish_config_idempotent() {
    let sensor = CapabilitySensor::new(&device(), &temperature_capability(None));
    assert_eq!(sensor.config(), sensor.config());
    let status = DeviceStatusDiagnostic::new(&device(), 60);
    assert_eq!(status.config(), status.config());
    let fixed = GlobalFixedDiagnostic::new("Version", "2024.1");
    assert_eq!(fixed.config(), fixed.config());
}

#[test]
fn unique_id_deterministic() {
    let a = CapabilitySensor::new(&device(), &temperature_capability(None));
    let b = CapabilitySensor::new(&device(), &temperature_capability(Some(100)));
    assert_eq!(a.config().base.unique_id, b.config().base.unique_id);
    assert_eq!(a.config().base.unique_id, "sensor-AA_BB_CC_DD-sensorTemperature");
    assert_eq!(a.config().state_topic, "gv2mqtt/sensor/sensor-AA_BB_CC_DD-sensorTemperature/state");
    let fa = a.into_temperature_farenheit().unwrap();
    let fb = b.into_temperature_farenheit().unwrap();
    assert_eq!(fa.config().base.unique_id, fb.config().base.unique_id);
}

#[test]
fn imperial_gating() {
    let humidity = CapabilitySensor::new(&device(), &humidity_capability(None));
    assert!(humidity.into_temperature_farenheit().is_none());

    let temperature = CapabilitySensor::new(&device(), &temperature_capability(None));
    let imperial = temperature.into_temperature_farenheit().unwrap();
    assert_eq!(imperial.config().unit_of_measurement.as_deref(), Some("°F"));
    assert!(imperial.config().base.unique_id.ends_with("_F"));
    assert!(imperial.config().state_topic.ends_with("_F"));
    assert_eq!(imperial.config().base.name.as_deref(), Some("Temperature (imperial)"));
}

#[test]
fn temperature_conversion_under_fahrenheit_quirk() {
    let quirk = Quirk {
        platform_temperature_sensor_units: Some(TemperatureUnits::Fahrenheit),
        platform_humidity_sensor_units: None,
    };
    let snap = snapshot(vec![temperature_capability(Some(9860))], Some(quirk));

    let celsius = CapabilitySensor::new(&device(), &temperature_capability(None));
    match celsius.resolve_state(Some(&snap)) {
        StateOutput::Publish { value, .. } => assert_eq!(value, "37.00"),
        other => panic!("expected a publish, got {:?}", other),
    }

    let imperial = CapabilitySensor::new(&device(), &temperature_capability(None))
        .into_temperature_farenheit()
        .unwrap();
    match imperial.resolve_state(Some(&snap)) {
        StateOutput::Publish { value, .. } => assert_eq!(value, "98.60"),
        other => panic!("expected a publish, got {:?}", other),
    }
}

#[test]
fn humidity_conversion() {
    let quirk = Quirk {
        platform_temperature_sensor_units: None,
        platform_humidity_sensor_units: Some(HumidityUnits::AbsoluteHundredths),
    };
    let sensor = CapabilitySensor::new(&device(), &humidity_capability(None));

    let snap = snapshot(vec![humidity_capability(Some(455000))], Some(quirk));
    match sensor.resolve_state(Some(&snap)) {
        StateOutput::Publish { value, .. } => assert_eq!(value, "45.50"),
        other => panic!("expected a publish, got {:?}", other),
    }

    let snap = snapshot(vec![humidity_capability(Some(4550))], None);
    match sensor.resolve_state(Some(&snap)) {
        StateOutput::Publish { value, .. } => assert_eq!(value, "45.50"),
        other => panic!("expected a publish, got {:?}", other),
    }
}

#[test]
fn missing_capability_is_a_silent_no_op() {
    let sensor = CapabilitySensor::new(&device(), &temperature_capability(None));
    let snap = snapshot(vec![humidity_capability(Some(4550))], None);
    assert_eq!(sensor.resolve_state(Some(&snap)), StateOutput::Nothing);

    let no_http = DeviceSnapshot {
        http_device_state: None,
        quirk: None,
        iot_state: None,
        lan_state: None,
        http_state: None,
        platform_metadata: None,
        merged_state: None,
    };
    assert_eq!(sensor.resolve_state(Some(&no_http)), StateOutput::Nothing);
    assert_eq!(sensor.resolve_state(None), StateOutput::Nothing);
}

#[test]
fn missing_numeric_source_publishes_empty_string() {
    let sensor = CapabilitySensor::new(&device(), &temperature_capability(None));
    let snap = snapshot(vec![temperature_capability(None)], None);
    match sensor.resolve_state(Some(&snap)) {
        StateOutput::Publish { value, .. } => assert_eq!(value, ""),
        other => panic!("expected a publish, got {:?}", other),
    }
}

#[test]
fn unknown_instance_passes_document_text_through() {
    let cap = DeviceCapability {
        instance: "online".to_string(),
        state: CapabilityState {
            value_centi: None,
            humidity_centi: None,
            text: "true".to_string(),
        },
    };
    let sensor = CapabilitySensor::new(&device(), &cap);
    assert_eq!(sensor.config().base.name.as_deref(), Some("Connected to Govee Cloud"));
    assert_eq!(sensor.config().unit_of_measurement, None);
    let snap = snapshot(vec![cap], None);
    match sensor.resolve_state(Some(&snap)) {
        StateOutput::Publish { topic, value } => {
            assert_eq!(topic, sensor.config().state_topic);
            assert_eq!(value, "true");
        },
        other => panic!("expected a publish, got {:?}", other),
    }
}

#[test]
fn end_to_end_celsius_publish() {
    let cap = temperature_capability(Some(2100));
    let sensor = CapabilitySensor::new(&device(), &cap);
    assert_eq!(sensor.config().unit_of_measurement.as_deref(), Some("°C"));
    assert_eq!(sensor.config().base.name.as_deref(), Some("Temperature"));
    let snap = snapshot(vec![cap], None);
    match sensor.resolve_state(Some(&snap)) {
        StateOutput::Publish { topic, value } => {
            assert_eq!(topic, "gv2mqtt/sensor/sensor-AA_BB_CC_DD-sensorTemperature/state");
            assert_eq!(value, "21.00");
        },
        other => panic!("expected a publish, got {:?}", other),
    }
}

#[test]
fn global_fixed_diagnostic_reports_its_value() {
    let fixed = GlobalFixedDiagnostic::new("Version", "2024.1");
    assert_eq!(fixed.config().base.unique_id, "global-Version");
    assert_eq!(fixed.config().state_topic, "gv2mqtt/sensor/global-Version/state");
    assert_eq!(fixed.config().base.entity_category.as_deref(), Some("diagnostic"));
    match fixed.resolve_state() {
        StateOutput::Publish { topic, value } => {
            assert_eq!(topic, "gv2mqtt/sensor/global-Version/state");
            assert_eq!(value, "2024.1");
        },
        other => panic!("expected a publish, got {:?}", other),
    }
}

fn status_snapshot(merged: Option<MergedState>) -> DeviceSnapshot {
    DeviceSnapshot {
        http_device_state: Some(HttpDeviceState { capabilities: vec![], text: "{\"k\":1}".to_string() }),
        quirk: None,
        iot_state: Some("{\"iot\":true}".to_string()),
        lan_state: None,
        http_state: Some("{\"http\":true}".to_string()),
        platform_metadata: Some("{\"sku\":\"H5179\"}".to_string()),
        merged_state: merged,
    }
}

#[test]
fn status_classification_boundaries() {
    let status = DeviceStatusDiagnostic::new(&device(), 60);
    let now = 10_000;

    // exactly at the threshold: poll interval + 30 seconds
    let snap = status_snapshot(Some(MergedState { updated_epoch_s: now - 90, text: "{}".to_string() }));
    match status.resolve_state(Some(&snap), now) {
        StateOutput::PublishWithAttributes { value, .. } => assert_eq!(value, "Available"),
        other => panic!("expected a publish with attributes, got {:?}", other),
    }

    // one second past the threshold
    let snap = status_snapshot(Some(MergedState { updated_epoch_s: now - 91, text: "{}".to_string() }));
    match status.resolve_state(Some(&snap), now) {
        StateOutput::PublishWithAttributes { value, .. } => assert_eq!(value, "Missing"),
        other => panic!("expected a publish with attributes, got {:?}", other),
    }

    // no merged state at all
    let snap = status_snapshot(None);
    match status.resolve_state(Some(&snap), now) {
        StateOutput::PublishWithAttributes { value, .. } => assert_eq!(value, "Unknown"),
        other => panic!("expected a publish with attributes, got {:?}", other),
    }

    assert_eq!(status.resolve_state(None, now), StateOutput::Nothing);
}

#[test]
fn status_publishes_aggregate_attributes() {
    let status = DeviceStatusDiagnostic::new(&device(), 60);
    assert_eq!(status.config().base.unique_id, "sensor-AA_BB_CC_DD-gv2mqtt-status");
    assert_eq!(
        status.config().json_attributes_topic.as_deref(),
        Some("gv2mqtt/sensor/sensor-AA_BB_CC_DD-gv2mqtt-status/attributes")
    );
    let merged = MergedState { updated_epoch_s: 500, text: "{\"on\":true}".to_string() };
    let snap = status_snapshot(Some(merged));
    match status.resolve_state(Some(&snap), 520) {
        StateOutput::PublishWithAttributes { topic, value, attributes_topic, attributes } => {
            assert_eq!(topic, "gv2mqtt/sensor/sensor-AA_BB_CC_DD-gv2mqtt-status/state");
            assert_eq!(value, "Available");
            assert_eq!(
                attributes_topic,
                "gv2mqtt/sensor/sensor-AA_BB_CC_DD-gv2mqtt-status/attributes"
            );
            assert_eq!(attributes.iot.as_deref(), Some("{\"iot\":true}"));
            assert_eq!(attributes.lan, None);
            assert_eq!(attributes.http.as_deref(), Some("{\"http\":true}"));
            assert_eq!(attributes.platform_metadata.as_deref(), Some("{\"sku\":\"H5179\"}"));
            assert_eq!(attributes.platform_state.as_deref(), Some("{\"k\":1}"));
            assert_eq!(attributes.overall.as_deref(), Some("{\"on\":true}"));
        },
        other => panic!("expected a publish with attributes, got {:?}", other),
    }
}
