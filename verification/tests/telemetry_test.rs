//! Events out of notification payloads.
use wyzesense2mqtt_rs::protocol::telemetry::{DongleEvent, SensorType, TelemetryData};

#[test]
fn test_parse_scan_extracts_version() {
    // Payload: event_type=0xA3, MAC="ABCD1234", type=ContactV1(0x01), version=23
    let payload = vec![
        0xA3,                               // event_type
        b'A', b'B', b'C', b'D', b'1', b'2', b'3', b'4', // MAC
        0x01,                               // ContactV1
        0x17,                               // version = 23
    ];
    let event = DongleEvent::parse_scan(&payload).unwrap();
    assert_eq!(event.mac, "ABCD1234");
    assert_eq!(event.sensor_type, SensorType::ContactV1);
    assert_eq!(event.event_type, 0xA3);
    assert_eq!(event.data, TelemetryData::Scanned { version: 23 });
}

#[test]
fn test_parse_scan_motion_v2_version() {
    let payload = vec![
        0xA3,
        b'M', b'O', b'T', b'I', b'O', b'N', b'0', b'1',
        0x0F,  // MotionV2
        0x19,  // version = 25
    ];
    let event = DongleEvent::parse_scan(&payload).unwrap();
    assert_eq!(event.mac, "MOTION01");
    assert_eq!(event.sensor_type, SensorType::MotionV2);
    assert_eq!(event.data, TelemetryData::Scanned { version: 25 });
}

#[test]
fn test_parse_scan_rejects_short_payload() {
    // Only 10 bytes — missing the version byte
    let payload = vec![
        0xA3,
        b'A', b'B', b'C', b'D', b'1', b'2', b'3', b'4',
        0x01,
    ];
    let result = DongleEvent::parse_scan(&payload);
    assert!(result.is_err());
    assert!(result.unwrap_err().contains("too short"));
}

#[test]
fn test_parse_scan_version_zero() {
    let payload = vec![
        0xA3,
        b'Z', b'E', b'R', b'O', b'V', b'E', b'R', b'S',
        0x07,  // ClimateV2
        0x00,  // version = 0
    ];
    let event = DongleEvent::parse_scan(&payload).unwrap();
    assert_eq!(event.sensor_type, SensorType::ClimateV2);
    assert_eq!(event.data, TelemetryData::Scanned { version: 0 });
}

fn alarm1(event_type: u8, sensor_type: u8, rest: &[u8]) -> Vec<u8> {
    let mut p = vec![0x00, 0x00, 0x01, 0x8F, 0xAB, 0x8E, 0x8C, 0x00, event_type];
    p.extend_from_slice(b"SENSO001");
    p.push(sensor_type);
    p.extend_from_slice(rest);
    p
}

#[test]
fn an_alarm_is_read_field_by_field() {
    let p = alarm1(0xA2, 0x01, &[0xFE, 0x5A, 0, 0, 1, 0x01, 0x0A, 60]);
    let e = DongleEvent::parse_alarm1(&p).unwrap();
    assert_eq!(e.mac, "SENSO001");
    assert_eq!(e.timestamp, 0x0000_018F_AB8E_8C00);
    assert_eq!(e.sensor_type, SensorType::ContactV1);
    assert_eq!(
        e.data,
        TelemetryData::Alarm {
            battery: 0x5A,
            rssi: -60,
            state: 1,
            die_temperature_c: -2,
            event_sequence: 0x010A,
        }
    );
    assert_eq!(e.dongle_mac, None);
}

#[test]
fn a_heartbeat_has_no_state() {
    let p = alarm1(0xA1, 0x02, &[20, 0x60, 0, 0, 9, 0, 3, 45]);
    let e = DongleEvent::parse_alarm1(&p).unwrap();
    assert_eq!(
        e.data,
        TelemetryData::Heartbeat {
            battery: 0x60,
            rssi: -45,
            die_temperature_c: 20,
            event_sequence: 3,
        }
    );
}

#[test]
fn a_climate_report_has_hundredths() {
    let p = alarm1(0xE8, 0x07, &[21, 0x5F, 0, 3, 0x15, 0x2E, 0x30, 0, 1, 38]);
    let e = DongleEvent::parse_alarm1(&p).unwrap();
    assert_eq!(
        e.data,
        TelemetryData::Climate { battery: 0x5F, rssi: -38, temperature: 2146, humidity: 48 }
    );
    let cold = alarm1(0xE8, 0x07, &[21, 0x5F, 0, 3, 0xFE, 50, 0x30, 0, 1, 38]);
    match DongleEvent::parse_alarm1(&cold).unwrap().data {
        TelemetryData::Climate { temperature, .. } => assert_eq!(temperature, -150),
        other => panic!("Expected Climate, got {:?}", other),
    }
}

#[test]
fn other_events_keep_their_bytes() {
    let p = alarm1(0x77, 0x01, &[1, 2, 3]);
    assert_eq!(
        DongleEvent::parse_alarm1(&p).unwrap().data,
        TelemetryData::UnknownEvent(vec![1, 2, 3])
    );
}

#[test]
fn short_payloads_are_refused() {
    assert!(DongleEvent::parse_alarm1(&[0; 17]).unwrap_err().contains("too short"));
    for (event_type, n) in [(0xA1u8, 7usize), (0xA2, 7), (0xAB, 11), (0xE8, 9)] {
        let p = alarm1(event_type, 0x01, &vec![0; n]);
        assert!(DongleEvent::parse_alarm1(&p).unwrap_err().contains("too short"));
    }
    assert!(DongleEvent::parse_alarm2(&[0; 9]).unwrap_err().contains("too short"));
    let mut bad = alarm1(0xA2, 0x01, &[0; 8]);
    bad[10] = 0xFF;
    assert_eq!(DongleEvent::parse_alarm1(&bad).unwrap_err(), "Invalid MAC characters (non-UTF8)");
}

#[test]
fn a_leak_report_tells_of_its_probe() {
    let mut p = vec![0xEA];
    p.extend_from_slice(b"LEAK0001");
    p.push(0x03);
    p.extend_from_slice(&[0, 0, 0x5A, 0, 0, 1, 0, 1, 0, 0, 45]);
    let e = DongleEvent::parse_alarm2_at(&p, 1234).unwrap();
    assert_eq!(e.timestamp, 1234);
    assert_eq!(e.sensor_type, SensorType::LeakV2);
    assert_eq!(
        e.data,
        TelemetryData::Leak {
            battery: 0x5A,
            rssi: -45,
            state: 1,
            probe_state: 0,
            probe_available: true,
        }
    );
}

#[test]
fn signal_strength_is_the_negative_of_its_byte() {
    for (raw, dbm) in [(0u8, 0i8), (60, -60), (127, -127), (128, -128), (129, -128), (255, -128)] {
        let mut payload = vec![0u8; 8];
        payload.push(0xA1);
        payload.extend_from_slice(b"77A8C793");
        payload.push(0x02);
        payload.extend_from_slice(&[0x14, 0x5C, 0x00, 0x01, 0x00, 0x00, 0x12, raw]);
        let event = DongleEvent::parse_alarm1(&payload).unwrap();
        assert_eq!(
            event.data,
            TelemetryData::Heartbeat {
                battery: 92,
                rssi: dbm,
                die_temperature_c: 20,
                event_sequence: 18,
            }
        );
    }
}
