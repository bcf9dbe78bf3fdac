//! Requests to the web interface.
use wyzesense2mqtt_rs::protocol::sensor::{SensorManager, SensorState, WyzeSensor};
use wyzesense2mqtt_rs::protocol::telemetry::SensorType;
use wyzesense2mqtt_rs::web::{
    chimed, list_cached_sensors, list_sensors, pick_dongle, purged, requested_type,
    sensors_of_dongle, unpaired, verified, VerifyRequest,
};

fn words(s: &[&str]) -> Vec<String> {
    s.iter().map(|x| x.to_string()).collect()
}

fn manager() -> SensorManager {
    let mut m = SensorManager::new("c".to_string(), "s".to_string());
    for (mac, dongle) in [("SENSORCC", Some("DONGLE_B")), ("SENSORAA", Some("DONGLE_A")), ("SENSORBB", None), ("SENSOR0A", Some("DONGLE_A"))] {
        let mut s = WyzeSensor::new(mac.to_string(), SensorType::ContactV2, mac.to_string());
        s.dongle_mac = dongle.map(|d: &str| d.to_string());
        s.last_seen = 5;
        m.get_sensors_mut().insert(mac.to_string(), s);
    }
    m
}

#[test]
fn sensors_are_listed_in_order() {
    let m = manager();
    let all: Vec<String> = list_cached_sensors(&m).sensors.iter().map(|s| s.mac.clone()).collect();
    assert_eq!(all, words(&["SENSOR0A", "SENSORAA", "SENSORBB", "SENSORCC"]));
    let some = list_sensors(&m, words(&["ZZZZZZZZ", "SENSORBB", "AAAAAAAA"])).sensors;
    assert_eq!(some.len(), 3);
    assert_eq!(some[0].mac, "AAAAAAAA");
    assert_eq!(some[0].sensor_type, "unknown");
    assert_eq!(some[0].battery, Some(100));
    assert_eq!(some[0].signal, -60);
    assert_eq!(some[0].last_seen, 0);
    assert_eq!(some[0].state, SensorState::Unknown);
    assert_eq!(some[1].mac, "SENSORBB");
    assert_eq!(some[1].sensor_type, "switchv2");
    assert_eq!(some[1].last_seen, 5);
    assert_eq!(some[2].mac, "ZZZZZZZZ");
}

#[test]
fn sensors_are_listed_under_their_dongles() {
    let m = manager();
    let of = |d: Option<&str>| -> Vec<String> {
        let named = d.map(|s| s.to_string());
        sensors_of_dongle(&m, &named).iter().map(|s| s.mac.clone()).collect()
    };
    assert_eq!(of(Some("DONGLE_A")), words(&["SENSOR0A", "SENSORAA"]));
    assert_eq!(of(Some("DONGLE_B")), words(&["SENSORCC"]));
    assert_eq!(of(Some("DONGLE_C")), words(&[]));
    assert_eq!(of(None), words(&["SENSORBB"]));
}

#[test]
fn requests_find_their_dongle() {
    let m = manager();
    let dongles = words(&["DONGLE_X", "DONGLE_A", "DONGLE_B"]);
    assert_eq!(pick_dongle(&m, "SENSORAA", &Some("DONGLE_B".to_string()), &dongles), Some(2));
    assert_eq!(pick_dongle(&m, "SENSORAA", &Some("DONGLE_Z".to_string()), &dongles), None);
    assert_eq!(pick_dongle(&m, "SENSORAA", &None, &dongles), Some(1));
    assert_eq!(pick_dongle(&m, "SENSORBB", &None, &dongles), Some(0));
    assert_eq!(pick_dongle(&m, "STRANGER", &None, &dongles), Some(0));
    assert_eq!(pick_dongle(&m, "SENSORAA", &None, &words(&["DONGLE_X"])), Some(0));
    assert_eq!(pick_dongle(&m, "SENSORAA", &None, &[]), None);
}

#[test]
fn answers_say_what_was_done() {
    assert_eq!(unpaired("M").message, "Sensor M successfully deleted");
    assert_eq!(verified("M").message, "Sensor M successfully verified");
    assert_eq!(chimed("M").message, "Chime triggered on M");
    assert!(unpaired("M").success && verified("M").success && chimed("M").success);
    let fix = purged(words(&["a", "b"]));
    assert!(fix.success);
    assert_eq!(fix.purged_count, 2);
    assert_eq!(fix.purged_macs, words(&["a", "b"]));
}

#[test]
fn a_type_is_named() {
    let mut r = VerifyRequest {
        mac: "M".to_string(),
        sensor_type: "climate".to_string(),
        dongle_mac: "D".to_string(),
    };
    assert_eq!(requested_type(&r), SensorType::ClimateV2);
    r.sensor_type = "toaster".to_string();
    assert_eq!(requested_type(&r), SensorType::Unknown(0));
}
