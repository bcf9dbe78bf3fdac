//! Captures of what went over a transport.
use wyzesense2mqtt_rs::hex::{bytes_to_hex, hex_to_bytes, list_to_hex, parse_list, word_to_hex};
use wyzesense2mqtt_rs::protocol::packet::Packet;
use wyzesense2mqtt_rs::transport::capture::{is_checkable, validate_capture, CaptureRecord};
use wyzesense2mqtt_rs::transport::replay::ReplayTransport;

#[test]
fn test_hex_roundtrip() {
    let data = vec![0x55, 0xAA, 0x43, 0x04, 0x28, 0x01, 0x01, 0x6F];
    let hex = bytes_to_hex(&data);
    assert_eq!(hex, "55aa43042801016f");
    let roundtripped = hex_to_bytes(&hex);
    assert_eq!(roundtripped, data);
}

#[test]
fn capture_record_holds_what_was_read() {
    let record = CaptureRecord {
        ts_ms: 1716570196992,
        dir: "R".to_string(),
        raw_hex: Some("3e55aa43042801016f".to_string()),
        proto_hex: "55aa43042801016f".to_string(),
        proto_len: 8,
    };
    assert_eq!(record.protocol_bytes(), vec![0x55, 0xAA, 0x43, 0x04, 0x28, 0x01, 0x01, 0x6F]);
    assert_eq!(
        record.raw_bytes(),
        Some(vec![0x3E, 0x55, 0xAA, 0x43, 0x04, 0x28, 0x01, 0x01, 0x6F])
    );
}

#[test]
fn test_capture_record_write_has_no_raw() {
    let record = CaptureRecord::of_write(1716570197050, &[0xAA, 0x55, 0x43, 0x03, 0x27, 0x00, 0x01]);
    assert_eq!(record.ts_ms, 1716570197050);
    assert_eq!(record.dir, "W");
    assert_eq!(record.raw_hex, None);
    assert_eq!(record.raw_bytes(), None);
    assert_eq!(record.proto_hex, "aa554303270001");
    assert_eq!(record.proto_len, 7);
}

#[test]
fn test_capture_transport_records_io() {
    let mut replay = ReplayTransport::new();
    replay.enqueue_read(&[0x55, 0xAA, 0x43, 0x04, 0x28, 0x01, 0x01, 0x6F]);

    let mut buf = [0u8; 128];
    let n = replay.read(&mut buf).unwrap();
    assert_eq!(n, 8);
    let mut records = vec![CaptureRecord::of_read(1000, &buf[..n], buf.len())];

    let write_data = Packet::new_sync(0x27, vec![]).to_bytes();
    replay.write(&write_data).unwrap();
    records.push(CaptureRecord::of_write(1001, &write_data));

    assert_eq!(records.len(), 2);
    assert_eq!(records[0].dir, "R");
    assert_eq!(records[0].proto_len, 8);
    assert_eq!(records[1].dir, "W");
    let (pkt, _) = Packet::parse(&records[0].protocol_bytes()).unwrap();
    assert_eq!(pkt.cmd(), 0x4328);
}

#[test]
fn test_load_and_validate_synthetic_capture() {
    let records = vec![
        CaptureRecord {
            ts_ms: 1000,
            dir: "R".to_string(),
            raw_hex: Some("0855aa43042801016f".to_string()),
            proto_hex: "55aa43042801016f".to_string(),
            proto_len: 8,
        },
        CaptureRecord {
            ts_ms: 1001,
            dir: "W".to_string(),
            raw_hex: None,
            proto_hex: "aa55430327016c".to_string(),
            proto_len: 7,
        },
    ];
    assert!(records.iter().all(is_checkable));
    let validation = validate_capture(&records);
    assert!(validation.total_parsed() >= 2);
    assert_eq!(validation.total_failed(), 0);
    assert_eq!(validation.packets[0].cmd, 0x4328);
    assert_eq!(validation.packets[0].payload_len, 1);
    assert_eq!(validation.packets[1].cmd, 0x4327);
    assert_eq!(validation.packets[1].direction, "W");
}

#[test]
fn a_capture_without_packets_fails() {
    let records = vec![CaptureRecord {
        ts_ms: 1,
        dir: "R".to_string(),
        raw_hex: None,
        proto_hex: "0102030405060708".to_string(),
        proto_len: 8,
    }];
    let validation = validate_capture(&records);
    assert_eq!(validation.total_parsed(), 0);
    assert_eq!(validation.total_failed(), 1);
    assert_eq!(validation.parse_failures, vec![0]);
}

#[test]
fn hex_lists_and_words() {
    assert_eq!(word_to_hex(0x53FF), "53FF");
    assert_eq!(word_to_hex(0x001A), "001A");
    assert_eq!(list_to_hex(&[0xAA, 0x05], true), "AA,05");
    assert_eq!(list_to_hex(&[0xAA, 0x05], false), "aa,05");
    assert_eq!(list_to_hex(&[], true), "");
    assert_eq!(parse_list("AA, 55,43,,03"), Some(vec![0xAA, 0x55, 0x43, 0x03]));
    assert_eq!(parse_list(""), Some(vec![]));
    assert_eq!(parse_list("GG"), None);
    assert_eq!(parse_list("100"), None);
}
