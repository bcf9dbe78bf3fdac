//! The sensors of the bridge.
use wyzesense2mqtt_rs::config::monitor::AvailabilityMonitor;
use wyzesense2mqtt_rs::config::sensors::{SensorMetadata, SensorsConfig};
use wyzesense2mqtt_rs::config::state::{default_battery, PersistedSensorState, SystemState};
use wyzesense2mqtt_rs::protocol::manager::{is_nameable, Route};
use wyzesense2mqtt_rs::protocol::sensor::{SensorManager, SensorState, WyzeSensor};
use wyzesense2mqtt_rs::protocol::telemetry::{DongleEvent, SensorType, TelemetryData};

fn manager() -> SensorManager {
    SensorManager::new("sensors.yaml".to_string(), "state.yaml".to_string())
}

fn event(mac: &str, sensor_type: SensorType, data: TelemetryData, dongle: Option<&str>) -> DongleEvent {
    DongleEvent {
        mac: mac.to_string(),
        timestamp: 5_000_000,
        sensor_type,
        event_type: 0xA2,
        data,
        dongle_mac: dongle.map(|s| s.to_string()),
    }
}

fn alarm(state: u8) -> TelemetryData {
    TelemetryData::Alarm { state, battery: 48, rssi: -60, die_temperature_c: 20, event_sequence: 7 }
}

fn metadata(name: &str, kind: Option<&str>, timeout_sec: Option<u64>) -> SensorMetadata {
    SensorMetadata {
        name: name.to_string(),
        kind: kind.map(|s| s.to_string()),
        timeout_sec,
        sw_version: None,
    }
}

fn persisted(mac: &str, sensor_type: &str, last_seen: u64, dongle: Option<&str>) -> PersistedSensorState {
    PersistedSensorState {
        mac: mac.to_string(),
        sensor_type: sensor_type.to_string(),
        last_seen,
        battery: Some(85),
        battery_raw: None,
        signal: -50,
        die_temperature_c: None,
        event_sequence: None,
        state: SensorState::Contact { is_open: false },
        dongle_mac: dongle.map(|s| s.to_string()),
    }
}

// --- Dongles ---

#[test]
fn test_assign_dongle_updates_existing_sensors() {
    let mut manager = manager();
    let sensor = WyzeSensor::new(
        "AABB1234".to_string(),
        SensorType::ContactV2,
        "Test Contact".to_string(),
    );
    manager.get_sensors_mut().insert("AABB1234".to_string(), sensor);
    assert!(manager.get_sensors().get("AABB1234").unwrap().dongle_mac.is_none());
    manager.assign_dongle("DONGLE01", &["AABB1234".to_string()]);
    assert_eq!(
        manager.get_sensors().get("AABB1234").unwrap().dongle_mac.as_deref(),
        Some("DONGLE01")
    );
}

#[test]
fn test_assign_dongle_creates_new_sensors_for_unknown_macs() {
    let mut manager = manager();
    assert!(manager.get_sensors().get("NEWMAC01").is_none());
    manager.assign_dongle("DONGLE01", &["NEWMAC01".to_string()]);
    let sensor = manager.get_sensors().get("NEWMAC01").unwrap();
    assert_eq!(sensor.dongle_mac.as_deref(), Some("DONGLE01"));
    assert!(matches!(sensor.sensor_type, SensorType::Unknown(_)));
}

#[test]
fn test_unassign_dongle_clears_only_matching_sensors() {
    let mut manager = manager();
    let mut sensor_a = WyzeSensor::new("SENSORAA".to_string(), SensorType::ContactV2, "A".to_string());
    sensor_a.dongle_mac = Some("DONGLE01".to_string());
    manager.get_sensors_mut().insert("SENSORAA".to_string(), sensor_a);
    let mut sensor_b = WyzeSensor::new("SENSORBB".to_string(), SensorType::MotionV2, "B".to_string());
    sensor_b.dongle_mac = Some("DONGLE02".to_string());
    manager.get_sensors_mut().insert("SENSORBB".to_string(), sensor_b);
    manager.unassign_dongle("DONGLE01");
    assert!(manager.get_sensors().get("SENSORAA").unwrap().dongle_mac.is_none());
    assert_eq!(
        manager.get_sensors().get("SENSORBB").unwrap().dongle_mac.as_deref(),
        Some("DONGLE02")
    );
}

#[test]
fn a_sensor_moves_to_the_dongle_that_lists_it() {
    let mut m = manager();
    m.assign_dongle_at("DONGLE01", &["NEWMAC01".to_string()], 77);
    m.assign_dongle_at("DONGLE02", &["NEWMAC01".to_string()], 99);
    let s = m.get_sensors().get("NEWMAC01").unwrap();
    assert_eq!(s.dongle_mac.as_deref(), Some("DONGLE02"));
    assert_eq!(s.last_seen, 77);
    assert_eq!(s.friendly_name, "Wyze Sense NEWMAC01");
    assert_eq!(m.get_sensors().len(), 1);
}

// --- Memory ---

#[test]
fn dongle_mac_is_remembered() {
    let mut m = manager();
    let mut s = WyzeSensor::new("AABB1234".to_string(), SensorType::ContactV2, "A".to_string());
    s.dongle_mac = Some("DONGLE01".to_string());
    s.state = SensorState::Contact { is_open: true };
    m.get_sensors_mut().insert("AABB1234".to_string(), s);
    let state = m.snapshot();
    let kept = state.sensors.get("AABB1234").unwrap();
    assert_eq!(kept.dongle_mac.as_deref(), Some("DONGLE01"));
    assert_eq!(kept.state, SensorState::Contact { is_open: true });
    let mut again = manager();
    assert_eq!(again.load_all_from_state(&SensorsConfig::new(), &state, 0), 1);
    let back = again.get_sensors().get("AABB1234").unwrap();
    assert_eq!(back.dongle_mac.as_deref(), Some("DONGLE01"));
    assert_eq!(back.sensor_type, SensorType::ContactV2);
    assert_eq!(default_battery(), Some(100));
}

#[test]
fn test_load_all_from_state_preserves_dongle_mac() {
    let mut state = SystemState::default();
    state.sensors.insert(
        "AABB1234".to_string(),
        persisted("AABB1234", "contact", 1620000000, Some("DONGLE99")),
    );
    let mut manager = manager();
    let count = manager.load_all_from_state(&SensorsConfig::new(), &state, 1700000000);
    assert_eq!(count, 1);
    let sensor = manager.get_sensors().get("AABB1234").unwrap();
    assert_eq!(sensor.dongle_mac.as_deref(), Some("DONGLE99"));
    assert_eq!(sensor.battery_pct, Some(85));
    assert!(matches!(sensor.state, SensorState::Contact { is_open: false }));
    assert_eq!(sensor.last_seen, 1620000000);
}

#[test]
fn listed_sensors_are_loaded_from_settings_and_memory() {
    let mut m = manager();
    assert_eq!(m.config_path(), "sensors.yaml");
    assert_eq!(m.state_path(), "state.yaml");
    let mut config = SensorsConfig::new();
    config.sensors.insert("SENSORAA".to_string(), metadata("Door", Some("motion"), Some(30)));
    let mut state = SystemState::default();
    state.sensors.insert("SENSORBB".to_string(), persisted("SENSORBB", "leak", 900, None));
    state.sensors.insert("SENSORDD".to_string(), persisted("SENSORDD", "toaster", 900, None));
    let macs: Vec<String> =
        ["SENSORAA", "SENSORBB", "SENSORCC", "SENSORDD"].iter().map(|s| s.to_string()).collect();
    assert!(m.load_sensors(&macs, &mut config, &state, 1000));
    let a = m.get_sensors().get("SENSORAA").unwrap();
    assert_eq!(a.friendly_name, "Door");
    assert_eq!(a.sensor_type, SensorType::MotionV1);
    assert_eq!(a.timeout_sec, 30);
    assert_eq!(a.last_seen, 1000);
    let b = m.get_sensors().get("SENSORBB").unwrap();
    assert_eq!(b.sensor_type, SensorType::LeakV2);
    assert_eq!(b.last_seen, 900);
    assert_eq!(b.friendly_name, "Wyze Sense SENSORBB");
    assert!(matches!(
        m.get_sensors().get("SENSORCC").unwrap().sensor_type,
        SensorType::Unknown(_)
    ));
    assert!(m.get_sensors().get("SENSORDD").is_none());
    assert_eq!(config.sensors.get("SENSORBB").unwrap().name, "Wyze Sense SENSORBB");
    assert!(config.sensors.get("SENSORDD").is_none());
    assert!(!m.load_sensors(&macs, &mut config, &state, 1000));
}

// --- Events ---

#[test]
fn an_event_makes_its_sensor_known() {
    let mut m = manager();
    let mut config = SensorsConfig::new();
    let e = event("NEWSENS1", SensorType::ContactV2, alarm(1), Some("DONGLE01"));
    assert_eq!(m.route(&e), Route::Registered);
    assert!(m.dispatch_event(&e, &mut config, 4000));
    let s = m.get_sensors().get("NEWSENS1").unwrap();
    assert_eq!(s.friendly_name, "Wyze SWITCHV2 ENS1");
    assert_eq!(s.state, SensorState::Contact { is_open: true });
    assert_eq!(s.dongle_mac.as_deref(), Some("DONGLE01"));
    assert_eq!(s.last_seen, 5000);
    assert!(s.is_online);
    assert_eq!(s.sw_version, "unknown");
    let entry = config.sensors.get("NEWSENS1").unwrap();
    assert_eq!(entry.name, "Wyze SWITCHV2 ENS1");
    assert_eq!(entry.timeout_sec, Some(s.timeout_sec));
    assert_eq!(entry.kind, None);
    assert_eq!(entry.sw_version, None);
    assert_eq!(m.route(&e), Route::Known);
}

#[test]
fn strangers_stay_unknown() {
    let mut m = manager();
    let mut config = SensorsConfig::new();
    for data in [TelemetryData::Scanned { version: 1 }, TelemetryData::Offline] {
        let e = event("NEWSENS1", SensorType::ContactV2, data, None);
        assert_eq!(m.route(&e), Route::Ignored);
        assert!(!m.dispatch_event(&e, &mut config, 4000));
    }
    assert_eq!(m.get_sensors().len(), 0);
    assert_eq!(config.sensors.len(), 0);
}

#[test]
fn the_type_of_a_sensor_is_learned_once() {
    let mut m = manager();
    let mut config = SensorsConfig::new();
    config.sensors.insert("NEWSENS1".to_string(), metadata("Wyze Sense NEWSENS1", None, Some(60)));
    m.assign_dongle_at("DONGLE01", &["NEWSENS1".to_string()], 0);
    let e = event("NEWSENS1", SensorType::ContactV2, alarm(0), None);
    assert_eq!(m.route(&e), Route::Upgraded);
    assert!(m.dispatch_event(&e, &mut config, 4000));
    let s = m.get_sensors().get("NEWSENS1").unwrap();
    assert_eq!(s.sensor_type, SensorType::ContactV2);
    assert_eq!(s.dongle_mac.as_deref(), Some("DONGLE01"));
    assert_eq!(s.timeout_sec, 60);
    assert_eq!(config.sensors.get("NEWSENS1").unwrap().name, "Wyze SWITCHV2 ENS1");
    let later = event("NEWSENS1", SensorType::MotionV2, alarm(0), None);
    assert_eq!(m.route(&later), Route::Known);
    m.dispatch_event(&later, &mut config, 4000);
    assert_eq!(m.get_sensors().get("NEWSENS1").unwrap().sensor_type, SensorType::ContactV2);
}

#[test]
fn a_name_of_the_user_is_kept() {
    let mut m = manager();
    let mut config = SensorsConfig::new();
    config.sensors.insert("ABC".to_string(), metadata("Front Door", None, None));
    assert!(is_nameable(&config, "ABC"));
    assert!(!is_nameable(&config, "XYZ"));
    assert!(!is_nameable(&config, "Ä€XX"));
    assert!(is_nameable(&config, "WXYZ"));
    m.register_and_persist_sensor(&mut config, "ABC".to_string(), SensorType::LeakV2, Some(42), 9);
    let s = m.get_sensors().get("ABC").unwrap();
    assert_eq!(s.friendly_name, "Front Door");
    assert_eq!(s.sw_version, "42");
    assert_eq!(s.last_seen, 9);
    assert_eq!(config.sensors.get("ABC").unwrap().sw_version.as_deref(), Some("42"));
}

#[test]
fn a_deleted_sensor_is_forgotten() {
    let mut m = manager();
    let mut config = SensorsConfig::new();
    m.assign_dongle_at("DONGLE01", &["SENSORAA".to_string(), "SENSORBB".to_string()], 0);
    config.sensors.insert("SENSORAA".to_string(), metadata("A", None, None));
    assert!(m.delete_and_persist_sensor(&mut config, "SENSORAA"));
    assert!(!m.delete_and_persist_sensor(&mut config, "SENSORBB"));
    assert_eq!(m.get_sensors().len(), 0);
    assert_eq!(config.sensors.len(), 0);
}

// --- Availability ---

#[test]
fn test_availability_monitor() {
    let now: u64 = 1_700_000_000;
    let mut config = SensorsConfig::new();
    config.sensors.insert("777A1234".to_string(), metadata("Front Door", Some("contact"), Some(3)));
    let mut state = SystemState::default();
    let mut record = persisted("777A1234", "switch", now, None);
    record.battery = Some(100);
    record.signal = -55;
    state.sensors.insert("777A1234".to_string(), record);
    let mut manager = manager();
    manager.load_sensors(&["777A1234".to_string()], &mut config, &state, now);

    assert!(manager.check_timeouts_at(now + 1).is_empty());
    assert!(manager.check_timeouts_at(now + 3).is_empty());
    if let Some(sensor) = manager.get_sensors_mut().get_mut("777A1234") {
        sensor.set_last_seen(now - 5);
    }
    assert_eq!(manager.check_timeouts_at(now + 1), vec!["777A1234".to_string()]);
    assert!(manager.check_timeouts_at(now + 2).is_empty());
    assert!(!manager.get_sensors().get("777A1234").unwrap().is_online);

    let e = manager.offline_event("777A1234", 42);
    assert_eq!(e.mac, "777A1234");
    assert_eq!(e.sensor_type, SensorType::ContactV1);
    assert_eq!(e.timestamp, 42);
    assert_eq!(e.data, TelemetryData::Offline);
    assert_eq!(manager.offline_event("GONE0000", 42).sensor_type, SensorType::Unknown(0));
}

#[test]
fn the_time_of_day_takes_old_sensors_offline() {
    let mut m = manager();
    m.assign_dongle_at("DONGLE01", &["SENSORAA".to_string()], 1);
    assert_eq!(m.check_timeouts(), vec!["SENSORAA".to_string()]);
    assert!(m.check_timeouts().is_empty());
}

#[test]
fn a_monitor_tells_a_silent_sensor_once() {
    let mut config = SensorsConfig::new();
    config.sensors.insert("SENSORAA".to_string(), metadata("A", None, Some(10)));
    config.sensors.insert("SENSORBB".to_string(), metadata("B", None, None));
    config.sensors.insert("SENSORCC".to_string(), metadata("C", None, Some(1)));
    let mut state = SystemState::default();
    state.sensors.insert("SENSORAA".to_string(), persisted("SENSORAA", "switch", 100, None));
    state.sensors.insert("SENSORBB".to_string(), persisted("SENSORBB", "switch", 100, None));
    let mut monitor = AvailabilityMonitor::new(config, 50);
    assert!(monitor.check_availabilities(&state, 109).is_empty());
    assert_eq!(monitor.check_availabilities(&state, 110), vec!["SENSORAA".to_string()]);
    assert_eq!(monitor.check_availabilities(&state, 150), vec!["SENSORBB".to_string()]);
    assert!(monitor.check_availabilities(&state, 151).is_empty());
    state.sensors.insert("SENSORAA".to_string(), persisted("SENSORAA", "switch", 200, None));
    assert!(monitor.check_availabilities(&state, 200).is_empty());
    assert_eq!(monitor.check_availabilities(&state, 300), vec!["SENSORAA".to_string()]);
}
