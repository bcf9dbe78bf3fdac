//! What goes to the broker, and what comes from it.
use wyzesense2mqtt_rs::config::sensors::SensorsConfig;
use wyzesense2mqtt_rs::gateway::mqtt::{
    announce_on_connect, announce_sensor, handle_event, last_will, publish_dongle_discovery,
    route_message, route_publish, settle_event, Action, BadTopic, Body, GatewayCommand, Published,
    SESSION_EXPIRY_SECS, SETTLE_MS,
};
use wyzesense2mqtt_rs::json::{JsonObject, JsonValue};
use wyzesense2mqtt_rs::protocol::manager::Route;
use wyzesense2mqtt_rs::protocol::sensor::{SensorManager, WyzeSensor};
use wyzesense2mqtt_rs::protocol::telemetry::{DongleEvent, SensorType, TelemetryData};

const ROOT: &str = "wyzesense2mqtt";
const HASS: &str = "homeassistant";

fn manager() -> SensorManager {
    let mut m = SensorManager::new("c".to_string(), "s".to_string());
    let s = WyzeSensor::new("AABBCCDD".to_string(), SensorType::ContactV2, "Door".to_string());
    m.get_sensors_mut().insert("AABBCCDD".to_string(), s);
    m
}

fn topics(actions: &[Action]) -> Vec<String> {
    actions
        .iter()
        .map(|a| match a {
            Action::Publish { topic, retain, .. } => {
                format!("{}{}", if *retain { "+" } else { "-" }, topic)
            }
            Action::Subscribe { topic } => format!("?{}", topic),
            Action::Pause { millis } => format!("~{}", millis),
        })
        .collect()
}

fn texts(actions: &[Action]) -> Vec<String> {
    actions
        .iter()
        .filter_map(|a| match a {
            Action::Publish { body: Body::Text(t), .. } => Some(t.clone()),
            _ => None,
        })
        .collect()
}

fn object(a: &Action) -> &JsonObject {
    match a {
        Action::Publish { body: Body::Object(o), .. } => o,
        other => panic!("no object: {:?}", other),
    }
}

fn text<'a>(o: &'a JsonObject, name: &str) -> Option<&'a str> {
    o.get(name).and_then(|v| v.as_str())
}

fn scan(enable: bool, mac: &str) -> Option<GatewayCommand> {
    Some(GatewayCommand::Scan { enable, dongle_mac: mac.to_string() })
}

// --- Messages ---

#[test]
fn a_search_names_its_dongle() {
    let topic = "wyzesense2mqtt/dongle/77A85A36/scan/set";
    for (payload, on) in [("1", true), ("ON", true), ("on", true), ("TRUE", true), ("0", false), ("OFF", false), ("", false)] {
        assert_eq!(route_message(ROOT, topic, payload), scan(on, "77A85A36"));
    }
    assert_eq!(route_message(ROOT, "wyzesense2mqtt/scan", "1"), None);
    assert_eq!(route_message(ROOT, "wyzesense2mqtt/dongle/X/status", "1"), None);
    assert_eq!(route_message(ROOT, "wyzesense2mqtt/dongle//scan/set", "1"), scan(true, ""));
}

#[test]
fn sensors_are_removed_and_files_read_again() {
    assert_eq!(
        route_message(ROOT, "wyzesense2mqtt/remove", "AABBCCDD"),
        Some(GatewayCommand::Delete { sensor_mac: "AABBCCDD".to_string(), dongle_mac: None })
    );
    assert_eq!(route_message(ROOT, "wyzesense2mqtt/reload", ""), Some(GatewayCommand::Reload));
    assert_eq!(route_message(ROOT, "other/reload", ""), None);
}

#[test]
fn messages_come_as_bytes() {
    assert_eq!(
        route_publish(ROOT, b"wyzesense2mqtt/dongle/77A85A36/scan/set", b" true\r\n"),
        Ok(scan(true, "77A85A36"))
    );
    assert_eq!(
        route_publish(ROOT, b"wyzesense2mqtt/remove", b"\t A\xFFB "),
        Ok(Some(GatewayCommand::Delete { sensor_mac: "A\u{FFFD}B".to_string(), dongle_mac: None }))
    );
    assert_eq!(route_publish(ROOT, b"wyzesense2mqtt/\xFF", b""), Ok(None));
    assert_eq!(route_publish(ROOT, b"wyzesense2mqtt/dongle/scan/set", b"1"), Err(BadTopic));
}

// --- Sensors ---

#[test]
fn discovery_is_published_once() {
    let m = manager();
    let mut p = Published::new();
    let first = announce_sensor(&m, HASS, ROOT, "AABBCCDD", true, &mut p, false);
    let t = topics(&first);
    assert_eq!(t[t.len() - 2], "+wyzesense2mqtt/AABBCCDD/status");
    assert_eq!(t[t.len() - 1], "-wyzesense2mqtt/AABBCCDD");
    assert_eq!(t[t.len() - 3], format!("~{}", SETTLE_MS));
    assert_eq!(t[t.len() - 4], "+homeassistant/binary_sensor/wyzesense_AABBCCDD/state/config");
    assert!(t[..t.len() - 4].iter().all(|x| x.starts_with("+homeassistant/sensor/wyzesense_AABBCCDD/")));
    assert_eq!(texts(&first), vec!["online".to_string()]);
    let second = announce_sensor(&m, HASS, ROOT, "AABBCCDD", false, &mut p, false);
    assert_eq!(second.len(), 2);
    assert_eq!(texts(&second), vec!["offline".to_string()]);
    let forced = announce_sensor(&m, HASS, ROOT, "AABBCCDD", true, &mut p, true);
    assert_eq!(forced.len(), first.len());
    let again = announce_sensor(&m, HASS, ROOT, "AABBCCDD", true, &mut p, false);
    assert_eq!(again.len(), 2);
}

#[test]
fn what_has_nothing_to_show_is_not_published() {
    let mut m = manager();
    m.assign_dongle_at("D", &["UNKNOWN1".to_string()], 0);
    let mut p = Published::new();
    assert_eq!(
        topics(&announce_sensor(&m, HASS, ROOT, "STRANGER", true, &mut p, false)),
        vec!["+wyzesense2mqtt/STRANGER/status".to_string()]
    );
    let shown = announce_sensor(&m, HASS, ROOT, "UNKNOWN1", true, &mut p, false).len();
    let other = announce_sensor(&m, HASS, ROOT, "UNKNOWN1", true, &mut p, false).len();
    assert_eq!(shown, other);
}

#[test]
fn an_event_is_announced() {
    let mut m = manager();
    let mut config = SensorsConfig::new();
    let mut p = Published::new();
    let mut e = DongleEvent {
        mac: "AABBCCDD".to_string(),
        timestamp: 5_000_000,
        sensor_type: SensorType::ContactV2,
        event_type: 0xA2,
        data: TelemetryData::Alarm { state: 1, battery: 48, rssi: -60, die_temperature_c: 20, event_sequence: 7 },
        dongle_mac: None,
    };
    let (took, out) = handle_event(&mut m, &mut config, &e, 5000, HASS, ROOT, &mut p);
    assert!(took);
    assert_eq!(texts(&out), vec!["online".to_string()]);
    assert_eq!(text(object(out.last().unwrap()), "state"), Some("open"));
    e.data = TelemetryData::Offline;
    let (took, out) = handle_event(&mut m, &mut config, &e, 5000, HASS, ROOT, &mut p);
    assert!(took);
    assert_eq!(texts(&out), vec!["offline".to_string()]);
    e.mac = "STRANGER".to_string();
    let (took, out) = handle_event(&mut m, &mut config, &e, 5000, HASS, ROOT, &mut p);
    assert!(!took);
    assert_eq!(topics(&out), vec!["+wyzesense2mqtt/STRANGER/status".to_string()]);
    assert_eq!(texts(&out), vec!["offline".to_string()]);
}

// --- Dongles and connecting ---

#[test]
fn a_dongle_is_announced() {
    let out = publish_dongle_discovery(HASS, ROOT, "77A85A36", "V1");
    assert_eq!(
        topics(&out),
        vec![
            "+homeassistant/binary_sensor/wyzesense_dongle_77a85a36/status/config".to_string(),
            "+homeassistant/sensor/wyzesense_dongle_77a85a36/firmware/config".to_string(),
            "+homeassistant/sensor/wyzesense_dongle_77a85a36/sensor_count/config".to_string(),
            "+homeassistant/switch/wyzesense_dongle_77a85a36/scan/config".to_string(),
            "+wyzesense2mqtt/dongle/77A85A36/status".to_string(),
            "+wyzesense2mqtt/dongle/77A85A36/state".to_string(),
        ]
    );
    let status = object(&out[0]);
    assert_eq!(text(status, "unique_id"), Some("wyzesense_dongle_77a85a36_status"));
    assert_eq!(text(status, "state_topic"), Some("wyzesense2mqtt/dongle/77A85A36/status"));
    match status.get("device") {
        Some(JsonValue::Device(d)) => {
            assert_eq!(d.name, "Wyze Dongle 77A85A36");
            assert_eq!(d.identifiers, vec!["wyzesense_dongle_77a85a36".to_string()]);
            assert_eq!(d.sw_version.as_deref(), Some("V1"));
        }
        other => panic!("no device: {:?}", other),
    }
    let switch = object(&out[3]);
    assert_eq!(text(switch, "command_topic"), Some("wyzesense2mqtt/dongle/77A85A36/scan/set"));
    assert_eq!(text(switch, "state_on"), Some("true"));
    let state = object(&out[5]);
    assert_eq!(text(state, "version"), Some("V1"));
    assert_eq!(state.get("sensor_count"), Some(&JsonValue::Int(0)));
    assert_eq!(state.get("scanning"), Some(&JsonValue::Bool(false)));
}

#[test]
fn everything_is_announced_on_connect() {
    let m = manager();
    let mut p = Published::new();
    let dongles = vec![("77A85A36".to_string(), None)];
    let first = announce_on_connect(&m, HASS, ROOT, &dongles, &mut p);
    let t = topics(&first);
    assert_eq!(
        &t[..5],
        &[
            "+wyzesense2mqtt/status".to_string(),
            "?wyzesense2mqtt/scan".to_string(),
            "?wyzesense2mqtt/remove".to_string(),
            "?wyzesense2mqtt/reload".to_string(),
            "?wyzesense2mqtt/dongle/+/scan/set".to_string(),
        ]
    );
    assert_eq!(text(object(&first[10]), "version"), Some("unknown"));
    assert_eq!(t.last().unwrap(), "-wyzesense2mqtt/AABBCCDD");
    assert_eq!(announce_on_connect(&m, HASS, ROOT, &dongles, &mut p), first);
}

#[test]
fn discovery_goes_to_the_configured_root() {
    let m = manager();
    let usual = topics(&announce_sensor(&m, HASS, ROOT, "AABBCCDD", true, &mut Published::new(), false));
    let moved = topics(&announce_sensor(&m, "ha/root", ROOT, "AABBCCDD", true, &mut Published::new(), false));
    let expected: Vec<String> =
        usual.iter().map(|t| t.replace("+homeassistant/", "+ha/root/")).collect();
    assert_eq!(moved, expected);
    assert_ne!(moved, usual);
    assert_eq!(
        topics(&publish_dongle_discovery("ha", ROOT, "77A85A36", "V1"))[3],
        "+ha/switch/wyzesense_dongle_77a85a36/scan/config"
    );
    let connected = topics(&announce_on_connect(&m, "ha", ROOT, &[], &mut Published::new()));
    assert!(connected.iter().any(|t| t == "+ha/binary_sensor/wyzesense_AABBCCDD/state/config"));
    assert!(connected.iter().all(|t| !t.contains("homeassistant")));
}

#[test]
fn the_broker_tells_when_the_bridge_is_gone() {
    let will = last_will(ROOT);
    assert_eq!(will.topic, "wyzesense2mqtt/status");
    assert_eq!(will.payload, "offline");
    assert!(will.retain);
    assert_eq!(will.delay_secs, 600);
    assert_eq!(SESSION_EXPIRY_SECS, 900);
}

#[test]
fn a_new_sensor_that_cannot_be_saved_takes_no_event() {
    let e = DongleEvent {
        mac: "NEWSENS1".to_string(),
        timestamp: 9000,
        sensor_type: SensorType::ContactV2,
        event_type: DongleEvent::EVENT_TYPE_ALARM,
        data: TelemetryData::Alarm {
            battery: 48,
            rssi: -60,
            state: 1,
            die_temperature_c: 20,
            event_sequence: 1,
        },
        dongle_mac: None,
    };
    for (saved, state) in [(false, "closed"), (true, "open")] {
        let mut m = manager();
        let mut config = SensorsConfig::new();
        let mut p = Published::new();
        let route = m.prepare_event(&e, &mut config, 5000);
        assert_eq!(route, Route::Registered);
        let (took, out) = settle_event(&mut m, &e, route, saved, HASS, ROOT, &mut p);
        assert_eq!(took, saved);
        assert_eq!(text(object(out.last().unwrap()), "state"), Some(state));
    }
    let mut m = manager();
    assert!(m.finish_event(&DongleEvent { mac: "AABBCCDD".to_string(), ..e }, Route::Upgraded, false));
}
