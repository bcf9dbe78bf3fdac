//! A simulated dongle.
use wyzesense2mqtt_rs::config::app_config::LogLevel;
use wyzesense2mqtt_rs::engine::dispatch::handle_packet_at;
use wyzesense2mqtt_rs::protocol::packet::Packet;
use wyzesense2mqtt_rs::protocol::telemetry::{DongleEvent, SensorType, TelemetryData};
use wyzesense2mqtt_rs::simulator::config::{
    read_level, relay_url, Degrees, GatewayConfig, LoggingConfig, SensorConfig, VirtualDongleConfig,
};
use wyzesense2mqtt_rs::simulator::console::{read_line, run, ConsoleCommand, Usage};
use wyzesense2mqtt_rs::simulator::dongle::{
    build_auto_event_packet, build_heartbeat_packet, now_timestamp_bytes, DongleState,
};

const ZERO: Degrees = Degrees { whole: 0, hundredths: 0 };

fn sensor(mac: &str, sensor_type: &str) -> SensorConfig {
    SensorConfig {
        mac: mac.to_string(),
        sensor_type: sensor_type.to_string(),
        battery: 80,
        rssi: 70,
        state: None,
        temperature: None,
        humidity: None,
        leak_state: None,
        auto_event_interval_secs: None,
    }
}

fn state() -> DongleState {
    let mut s = DongleState::new(VirtualDongleConfig::default());
    s.add_sensor(sensor("AAAA0001", "contact"));
    s.add_sensor(sensor("AAAA0002", "climate"));
    s
}

fn read(bytes: &[u8]) -> DongleEvent {
    let (p, n) = Packet::parse(bytes).unwrap();
    assert_eq!(n, bytes.len());
    handle_packet_at(&p, &None, 0).event.unwrap()
}

// --- Configuration ---

#[test]
fn a_dongle_without_a_file() {
    let c = VirtualDongleConfig::default();
    assert_eq!(c.dongle.mac, "VIRTUAL1");
    assert_eq!(c.dongle.version, "V2.3.9");
    assert_eq!(c.gateway.url, "ws://127.0.0.1:8080/ws/bridge");
    assert!(c.gateway.auto_reconnect);
    assert_eq!(c.gateway.reconnect_delay_secs, 5);
    assert!(c.sensors.is_empty());
    assert_eq!(c.logging.log_level(), LogLevel::Info);
    assert_eq!(LoggingConfig { level: "WARNING".to_string() }.log_level(), LogLevel::Warn);
    for (w, l) in [
        ("trace", LogLevel::Trace),
        ("debug", LogLevel::Debug),
        ("warn", LogLevel::Warn),
        ("error", LogLevel::Error),
        ("x", LogLevel::Info),
    ] {
        assert_eq!(read_level(w), l);
    }
}

#[test]
fn addresses_name_the_device() {
    let mut g = GatewayConfig::default();
    assert_eq!(g.session_url(), "ws://127.0.0.1:8080/ws/bridge?device=virtual-dongle");
    g.auth_token = Some("t".to_string());
    assert_eq!(g.session_url(), "ws://127.0.0.1:8080/ws/bridge?device=virtual-dongle&token=t");
    assert_eq!(relay_url("ws://x", "/dev/hidraw0"), "ws://x?device=%2Fdev%2Fhidraw0");
}

#[test]
fn states_have_codes() {
    let mut s = sensor("AAAA0001", "contact");
    assert_eq!((s.state_byte(), s.leak_byte()), (0, 0));
    for (w, b) in [("open", 1), ("active", 1), ("1", 1), ("closed", 0), ("OPEN", 0)] {
        s.state = Some(w.to_string());
        assert_eq!(s.state_byte(), b);
    }
    for (w, b) in [("wet", 1), ("1", 1), ("dry", 0)] {
        s.leak_state = Some(w.to_string());
        assert_eq!(s.leak_byte(), b);
    }
}

// --- Answers ---

#[test]
fn the_handshake_is_answered() {
    let mut s = state();
    let ask = |s: &mut DongleState, p: Packet| -> Packet {
        let a = s.handle_command(&p);
        assert!(!a.save && !a.scan_set);
        Packet::parse(&a.response.unwrap()).unwrap().0
    };
    assert_eq!(ask(&mut s, Packet::new_sync(0x27, vec![])), Packet::new_sync(0x28, vec![1]));
    assert_eq!(ask(&mut s, Packet::new_sync(0x02, vec![0; 16])), Packet::new_sync(0x03, vec![0x42; 16]));
    assert_eq!(ask(&mut s, Packet::new_sync(0x04, vec![])), Packet::new_sync(0x05, b"VIRTUAL1".to_vec()));
    assert_eq!(ask(&mut s, Packet::new_async(0x16, vec![])), Packet::new_async(0x17, b"V2.3.9".to_vec()));
    assert_eq!(ask(&mut s, Packet::new_async(0x14, vec![0xFF])), Packet::new_async(0x15, vec![]));
    assert_eq!(ask(&mut s, Packet::new_async(0x2E, vec![])), Packet::new_async(0x2F, vec![2]));
    assert_eq!(ask(&mut s, Packet::new_async(0x21, vec![])), Packet::new_async(0x22, vec![0xAA; 16]));
    assert_eq!(ask(&mut s, Packet::new_async(0x23, vec![])), Packet::new_async(0x24, vec![1]));
    assert_eq!(ask(&mut s, Packet::new_async(0x70, vec![])), Packet::new_async(0x71, vec![1]));
    let unknown = s.handle_command(&Packet::new_async(0x99, vec![]));
    assert!(unknown.response.is_none() && !unknown.save && !unknown.scan_set);
}

#[test]
fn bound_sensors_are_listed() {
    let mut s = state();
    let bytes = s.handle_command(&Packet::new_async(0x30, vec![2])).response.unwrap();
    let (head, h) = Packet::parse(&bytes).unwrap();
    let (first, n) = Packet::parse(&bytes[h..]).unwrap();
    let (second, m) = Packet::parse(&bytes[h + n..]).unwrap();
    assert_eq!(h + n + m, bytes.len());
    assert_eq!(head, Packet::new_async(0x30, vec![2]));
    assert_eq!(first, Packet::new_async(0x31, b"AAAA0001".to_vec()));
    assert_eq!(second, Packet::new_async(0x31, b"AAAA0002".to_vec()));
    assert_eq!(s.paired_macs(), vec!["AAAA0001".to_string(), "AAAA0002".to_string()]);
}

#[test]
fn a_search_is_turned_on_and_off() {
    let mut s = state();
    let a = s.handle_command(&Packet::new_async(0x1C, vec![1]));
    assert!(s.scanning && a.scan_set && !a.save);
    assert_eq!(a.response.unwrap(), Packet::new_async(0x1D, vec![1]).to_bytes());
    let a = s.handle_command(&Packet::new_async(0x1C, vec![0]));
    assert!(!s.scanning && a.scan_set);
    assert_eq!(a.response.unwrap(), Packet::new_async(0x1D, vec![0]).to_bytes());
}

#[test]
fn a_sensor_is_unbound() {
    let mut s = state();
    s.add_sensor(sensor("AAAA0001", "leak"));
    assert_eq!(s.get_sensor("AAAA0001").unwrap().sensor_type, "leak");
    let a = s.handle_command(&Packet::new_async(0x25, b"AAAA0001\0\0".to_vec()));
    assert!(a.save);
    assert_eq!(s.paired_macs(), vec!["AAAA0002".to_string()]);
    assert!(s.get_sensor("AAAA0001").is_none());
    assert!(!s.handle_command(&Packet::new_async(0x25, b"AAAA0001".to_vec())).save);
    assert!(!s.handle_command(&Packet::new_async(0x25, vec![0xFF])).save);
    assert!(s.remove_sensor("AAAA0002"));
    assert!(!s.remove_sensor("AAAA0002"));
}

// --- Reports ---

#[test]
fn sensors_report_by_themselves() {
    let mut motion = sensor("AAAA0003", "motion");
    motion.state = Some("inactive".to_string());
    assert!(matches!(
        read(&build_auto_event_packet(&motion, 1000)).data,
        TelemetryData::Alarm { state: 1, battery: 80, rssi: -70, .. }
    ));
    let mut door = sensor("AAAA0003", "contact");
    assert!(matches!(
        read(&build_auto_event_packet(&door, 1000)).data,
        TelemetryData::Alarm { state: 0, .. }
    ));
    door.state = Some("open".to_string());
    let e = read(&build_auto_event_packet(&door, 1000));
    assert!(matches!(e.data, TelemetryData::Alarm { state: 1, .. }));
    assert_eq!(e.timestamp, 1000);
    assert_eq!(e.mac, "AAAA0003");
    assert_eq!(
        read(&build_auto_event_packet(&sensor("AAAA0003", "climate"), 1000)).data,
        TelemetryData::Climate { battery: 80, rssi: -70, temperature: 2200, humidity: 50 }
    );
    let mut leak = sensor("AAAA0003", "leak");
    leak.leak_state = Some("wet".to_string());
    assert!(matches!(
        read(&build_auto_event_packet(&leak, 1000)).data,
        TelemetryData::Leak { state: 1, probe_available: false, .. }
    ));
    assert!(matches!(
        read(&build_heartbeat_packet(1000, "AAAA0003", 48, 60)).data,
        TelemetryData::Heartbeat { battery: 48, rssi: -60, .. }
    ));
    assert_eq!(now_timestamp_bytes().len(), 8);
    assert_ne!(now_timestamp_bytes(), vec![0u8; 8]);
}

// --- Console ---

#[test]
fn lines_are_read() {
    assert_eq!(read_line("  \t", false), ConsoleCommand::Empty);
    assert_eq!(
        read_line(" ALARM aaaa0001 Open ", false),
        ConsoleCommand::Alarm { mac: "AAAA0001".to_string(), state: 1 }
    );
    assert_eq!(
        read_line("alarm aaaa0001 closed", false),
        ConsoleCommand::Alarm { mac: "AAAA0001".to_string(), state: 0 }
    );
    assert_eq!(
        read_line("hb aaaa0001", false),
        ConsoleCommand::Heartbeat { mac: "AAAA0001".to_string() }
    );
    assert_eq!(
        read_line("climate aaaa0002 -3.5 300", false),
        ConsoleCommand::Climate {
            mac: "AAAA0002".to_string(),
            temperature: "-3.5".to_string(),
            humidity: 50,
        }
    );
    assert_eq!(
        read_line("climate aaaa0002 21 61", false),
        ConsoleCommand::Climate {
            mac: "AAAA0002".to_string(),
            temperature: "21".to_string(),
            humidity: 61,
        }
    );
    assert_eq!(
        read_line("leak aaaa0003 WET", false),
        ConsoleCommand::Leak { mac: "AAAA0003".to_string(), state: 1 }
    );
    assert_eq!(read_line("alarm x", false), ConsoleCommand::TooFewWords(Usage::Alarm));
    assert_eq!(read_line("heartbeat", false), ConsoleCommand::TooFewWords(Usage::Heartbeat));
    assert_eq!(read_line("climate x 1", false), ConsoleCommand::TooFewWords(Usage::Climate));
    assert_eq!(read_line("leak x", false), ConsoleCommand::TooFewWords(Usage::Leak));
    assert_eq!(read_line("list", false), ConsoleCommand::Sensors);
    assert_eq!(read_line("?", false), ConsoleCommand::Help);
    assert_eq!(read_line("exit", false), ConsoleCommand::Quit);
    assert_eq!(read_line("stopscan", false), ConsoleCommand::StopScan);
    assert_eq!(read_line("Dance", false), ConsoleCommand::Unknown("dance".to_string()));
}

#[test]
fn during_a_search_lines_name_sensors() {
    assert_eq!(
        read_line("bbbb0001", true),
        ConsoleCommand::Announce {
            mac: "BBBB0001".to_string(),
            kind: "contact".to_string(),
            sensor_type: SensorType::from_name("contact").unwrap(),
        }
    );
    assert_eq!(
        read_line("bbbb0001 Motion", true),
        ConsoleCommand::Announce {
            mac: "BBBB0001".to_string(),
            kind: "motion".to_string(),
            sensor_type: SensorType::MotionV1,
        }
    );
    assert_eq!(
        read_line("bbbb0001 toaster", true),
        ConsoleCommand::Announce {
            mac: "BBBB0001".to_string(),
            kind: "toaster".to_string(),
            sensor_type: SensorType::ContactV2,
        }
    );
    assert_eq!(read_line("alarm x open", true), ConsoleCommand::BadMac);
    assert_eq!(read_line("bbbb-001", true), ConsoleCommand::BadMac);
    assert_eq!(read_line("stopscan", true), ConsoleCommand::StopScan);
    assert_eq!(read_line("quit", true), ConsoleCommand::Quit);
    assert_eq!(read_line("sensors", true), ConsoleCommand::Sensors);
}

#[test]
fn commands_are_carried_out() {
    let mut s = state();
    let c = read_line("bbbb0001 motion", true);
    let e = read(&run(&mut s, &c, ZERO, 1000).unwrap());
    assert_eq!(e.mac, "BBBB0001");
    assert_eq!(e.sensor_type, SensorType::MotionV1);
    assert_eq!(e.data, TelemetryData::Scanned { version: 0x19 });
    assert_eq!(s.paired_macs().len(), 3);
    run(&mut s, &c, ZERO, 1000);
    assert_eq!(s.paired_macs().len(), 3);
    let added = s.get_sensor("BBBB0001").unwrap();
    assert_eq!(added.battery, 90);
    assert_eq!(added.state.as_deref(), Some("closed"));

    let alarm = read(&run(&mut s, &read_line("alarm aaaa0001 on", false), ZERO, 7).unwrap());
    assert!(matches!(alarm.data, TelemetryData::Alarm { state: 1, battery: 80, rssi: -70, .. }));
    let stranger = read(&run(&mut s, &read_line("hb cccc0001", false), ZERO, 7).unwrap());
    assert!(matches!(stranger.data, TelemetryData::Heartbeat { battery: 90, rssi: -60, .. }));
    let climate = read_line("climate aaaa0002 21.25 61", false);
    assert_eq!(
        read(&run(&mut s, &climate, Degrees { whole: 21, hundredths: 25 }, 7).unwrap()).data,
        TelemetryData::Climate { battery: 80, rssi: -70, temperature: 2125, humidity: 61 }
    );
    let leak = read(&run(&mut s, &read_line("leak aaaa0001 dry", false), ZERO, 7).unwrap());
    assert!(matches!(leak.data, TelemetryData::Leak { state: 0, .. }));
    assert!(run(&mut s, &read_line("help", false), ZERO, 7).is_none());
    assert_eq!(s.paired_macs().len(), 3);
}

#[test]
fn commands_leave_gateway_and_logging_alone() {
    let mut s = state();
    s.config.gateway.url = "ws://bridge:8080".to_string();
    s.config.logging.level = "debug".to_string();
    let gateway = s.config.gateway.clone();
    let logging = s.config.logging.clone();
    s.handle_command(&Packet::new_async(0x1C, vec![1]));
    s.handle_command(&Packet::new_async(0x25, b"AAAA0001".to_vec()));
    let announce = ConsoleCommand::Announce {
        mac: "AAAA0009".to_string(),
        kind: "contact".to_string(),
        sensor_type: SensorType::ContactV1,
    };
    run(&mut s, &announce, ZERO, 0);
    assert_eq!(s.config.gateway, gateway);
    assert_eq!(s.config.logging, logging);
}
