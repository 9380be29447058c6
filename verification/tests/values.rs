use gv2mqtt::ident::{availability_topic, str_eq, topic_safe_id, topic_safe_string};
use gv2mqtt::render::{dec_string, format_centi};
use gv2mqtt::units::{ctof, HumidityUnits, TemperatureUnits};
use gv2mqtt::device::DeviceRecord;

#[test]
fn format_centi_renders_two_decimals() {
    assert_eq!(format_centi(0), "0.00");
    assert_eq!(format_centi(5), "0.05");
    assert_eq!(format_centi(-5), "-0.05");
    assert_eq!(format_centi(2100), "21.00");
    assert_eq!(format_centi(123456), "1234.56");
    assert_eq!(format_centi(-987654321), "-9876543.21");
    assert_eq!(format_centi(9860), "98.60");
}

#[test]
fn dec_string_renders_decimal() {
    assert_eq!(dec_string(0), "0");
    assert_eq!(dec_string(7), "7");
    assert_eq!(dec_string(105), "105");
    assert_eq!(dec_string(1000000), "1000000");
}

#[test]
fn fahrenheit_reading_normalizes_to_celsius() {
    assert_eq!(TemperatureUnits::Fahrenheit.from_reading_to_celsius(9860), 3700);
    assert_eq!(TemperatureUnits::Fahrenheit.from_reading_to_celsius(3200), 0);
    assert_eq!(TemperatureUnits::Celsius.from_reading_to_celsius(2100), 2100);
}

#[test]
fn celsius_to_fahrenheit() {
    assert_eq!(ctof(3700), 9860);
    assert_eq!(ctof(0), 3200);
    assert_eq!(ctof(-4000), -4000);
    // 0.01 C scales to 0.018 F, rounded away from zero to 0.02 above 32 F.
    assert_eq!(ctof(1), 3202);
}

#[test]
fn humidity_reading_normalizes_to_relative_percent() {
    assert_eq!(HumidityUnits::AbsoluteHundredths.from_reading_to_relative_percent(455000), 4550);
    assert_eq!(HumidityUnits::RelativePercent.from_reading_to_relative_percent(4550), 4550);
    // rounding to the nearest hundredth, halves away from zero
    assert_eq!(HumidityUnits::AbsoluteHundredths.from_reading_to_relative_percent(4550), 46);
}

#[test]
fn topic_safe_mapping() {
    assert_eq!(topic_safe_string("AA:BB:cc dd"), "AA_BB_cc_dd");
    assert_eq!(topic_safe_string("sensorTemperature"), "sensorTemperature");
    assert_eq!(topic_safe_string("a-b_c"), "a-b_c");
    assert_eq!(topic_safe_string(""), "");
    let device = DeviceRecord { id: "00:11:22:AB".to_string(), name: "Thermometer".to_string() };
    assert_eq!(topic_safe_id(&device), "00_11_22_AB");
}

#[test]
fn availability_topic_is_fixed() {
    assert_eq!(availability_topic(), "gv2mqtt/availability");
}

#[test]
fn str_eq_compares_contents() {
    assert!(str_eq("abc", "abc"));
    assert!(!str_eq("abc", "abd"));
    assert!(!str_eq("abc", "ab"));
}
