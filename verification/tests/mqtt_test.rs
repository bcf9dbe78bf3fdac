//! What is published, and what messages ask for.
use wyzesense2mqtt_rs::json::{JsonObject, JsonValue};
use wyzesense2mqtt_rs::protocol::sensor::WyzeSensor;
use wyzesense2mqtt_rs::protocol::telemetry::{DongleEvent, SensorType, TelemetryData};

fn find<'a>(payloads: &'a [(String, JsonObject)], topic: &str) -> &'a JsonObject {
    &payloads.iter().find(|(t, _)| t == topic).unwrap().1
}

fn text<'a>(o: &'a JsonObject, name: &str) -> &'a str {
    o.get(name).and_then(|v| v.as_str()).unwrap()
}

#[test]
fn test_contact_discovery() {
    let sensor = WyzeSensor::new(
        "ABC12345".to_string(),
        SensorType::ContactV1,
        "Wyze Sense ABC12345".to_string(),
    );
    let payloads = sensor.get_discovery_payloads("wyzesense");
    assert_eq!(payloads.len(), 5); // battery + battery_voltage + die_temperature + signal + state
    
    let contact_topic = "homeassistant/binary_sensor/wyzesense_ABC12345/state/config";
    let contact_payload = find(&payloads, contact_topic);
    
    assert_eq!(text(contact_payload, "device_class"), "opening");
    assert_eq!(text(contact_payload, "unique_id"), "wyzesense_ABC12345_state");
    assert_eq!(text(contact_payload, "state_topic"), "wyzesense/ABC12345");
    assert_eq!(text(contact_payload, "json_attributes_topic"), "wyzesense/ABC12345");

    // Verify battery voltage diagnostic entity
    let voltage_topic = "homeassistant/sensor/wyzesense_ABC12345/battery_voltage/config";
    let voltage_payload = find(&payloads, voltage_topic);
    assert_eq!(text(voltage_payload, "device_class"), "voltage");
    assert_eq!(text(voltage_payload, "unit_of_measurement"), "V");
    assert_eq!(text(voltage_payload, "entity_category"), "diagnostic");
}

#[test]
fn test_climate_discovery() {
    let sensor = WyzeSensor::new(
        "ABC12345".to_string(),
        SensorType::ClimateV2,
        "Wyze Sense ABC12345".to_string()
    );
    let payloads = sensor.get_discovery_payloads("wyzesense");
    assert_eq!(payloads.len(), 6); // battery + battery_voltage + die_temperature + signal + temp + humidity
    
    let temp_topic = "homeassistant/sensor/wyzesense_ABC12345/temperature/config";
    let temp_payload = find(&payloads, temp_topic);
    assert_eq!(text(temp_payload, "device_class"), "temperature");
    assert_eq!(text(temp_payload, "state_class"), "measurement");
    assert_eq!(text(temp_payload, "unit_of_measurement"), "°C");
    assert_eq!(text(temp_payload, "json_attributes_topic"), "wyzesense/ABC12345");

    let hum_topic = "homeassistant/sensor/wyzesense_ABC12345/humidity/config";
    let hum_payload = find(&payloads, hum_topic);
    assert_eq!(text(hum_payload, "device_class"), "humidity");
    assert_eq!(text(hum_payload, "state_class"), "measurement");
    assert_eq!(text(hum_payload, "unit_of_measurement"), "%");
    assert_eq!(text(hum_payload, "json_attributes_topic"), "wyzesense/ABC12345");
}

#[test]
fn test_leak_discovery() {
    let sensor = WyzeSensor::new(
        "ABC12345".to_string(),
        SensorType::LeakV2,
        "Wyze Sense ABC12345".to_string(),
    );
    let payloads = sensor.get_discovery_payloads("wyzesense");
    assert_eq!(payloads.len(), 7); // battery + battery_voltage + die_temperature + signal + main moisture + probe available + probe moisture

    let leak_topic = "homeassistant/binary_sensor/wyzesense_ABC12345/state/config";
    let leak_payload = find(&payloads, leak_topic);
    assert_eq!(text(leak_payload, "device_class"), "moisture");

    let probe_avail_topic = "homeassistant/binary_sensor/wyzesense_ABC12345/probe_available/config";
    let probe_avail_payload = find(&payloads, probe_avail_topic);
    assert_eq!(text(probe_avail_payload, "device_class"), "connectivity");

    let probe_state_topic = "homeassistant/binary_sensor/wyzesense_ABC12345/probe_state/config";
    let probe_state_payload = find(&payloads, probe_state_topic);
    assert_eq!(text(probe_state_payload, "device_class"), "moisture");
    // Probe moisture entity uses availability_template to go unavailable when probe disconnected
    assert_eq!(text(probe_state_payload, "availability_template"), "{{ 'online' if value_json.probe_available else 'offline' }}");
    assert_eq!(text(probe_state_payload, "payload_available"), "online");
    assert_eq!(text(probe_state_payload, "payload_not_available"), "offline");
}

#[test]
fn test_contact_state_payload() {
    let mut sensor = WyzeSensor::new(
        "ABC12345".to_string(),
        SensorType::ContactV1,
        "Wyze Sense ABC12345".to_string(),
    );
    let event = DongleEvent {
        mac: "ABC12345".to_string(),
        timestamp: 1_716_570_196_992,
        sensor_type: SensorType::ContactV1,
        event_type: 0xA1,
        data: TelemetryData::Alarm {
            battery: 90,
            rssi: -60,
            state: 1,
            die_temperature_c: 22,
            event_sequence: 0,
        },
        dongle_mac: None,
    };
    sensor.update_from_event(&event).unwrap();
    let payload = sensor.get_state_payload();
    assert_eq!(text(&payload, "state"), "open");
    // raw battery=90 on a 3V coin cell curve → 50% capacity (2.81V, plateau ending)
    assert_eq!(payload.get("battery"), Some(&JsonValue::Int(50)));
    assert_eq!(payload.get("signal_strength"), Some(&JsonValue::Int(-60)));
}

#[test]
fn test_leak_state_payload() {
    let mut sensor = WyzeSensor::new(
        "ABC12345".to_string(),
        SensorType::LeakV2,
        "Wyze Sense ABC12345".to_string(),
    );
    let event = DongleEvent {
        mac: "ABC12345".to_string(),
        timestamp: 1_716_570_196_992,
        sensor_type: SensorType::LeakV2,
        event_type: 0xEA,
        data: TelemetryData::Leak {
            battery: 85,
            rssi: -55,
            state: 1,
            probe_state: 1,
            probe_available: true,
        },
        dongle_mac: None,
    };
    sensor.update_from_event(&event).unwrap();
    let payload = sensor.get_state_payload();
    assert_eq!(text(&payload, "state"), "wet");
    assert_eq!(text(&payload, "probe_state"), "wet");
    assert_eq!(payload.get("probe_available"), Some(&JsonValue::Bool(true)));
}

#[test]
fn test_leak_state_payload_no_probe() {
    let mut sensor = WyzeSensor::new(
        "ABC12345".to_string(),
        SensorType::LeakV2,
        "Wyze Sense ABC12345".to_string(),
    );
    let event = DongleEvent {
        mac: "ABC12345".to_string(),
        timestamp: 1_716_570_196_992,
        sensor_type: SensorType::LeakV2,
        event_type: 0xEA,
        data: TelemetryData::Leak {
            battery: 85,
            rssi: -55,
            state: 0,
            probe_state: 0,
            probe_available: false,
        },
        dongle_mac: None,
    };
    sensor.update_from_event(&event).unwrap();
    let payload = sensor.get_state_payload();
    assert_eq!(text(&payload, "state"), "dry");
    assert_eq!(payload.get("probe_available"), Some(&JsonValue::Bool(false)));
    // probe_state should always be present (defaults to "dry" when probe disconnected)
    assert_eq!(text(&payload, "probe_state"), "dry");
}
