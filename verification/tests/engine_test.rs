//! Exchanges with dongles that exist in memory only.
use wyzesense2mqtt_rs::config::sensors::SensorsConfig;
use wyzesense2mqtt_rs::engine::command::{EngineError, Request};
use wyzesense2mqtt_rs::engine::dispatch::{handle_packet, handle_packet_at};
use wyzesense2mqtt_rs::engine::handshake::{Handshake, HandshakeStep};
use wyzesense2mqtt_rs::engine::listing::{ghosts, is_ghost, Listing};
use wyzesense2mqtt_rs::engine::pairing::{HandPairing, HandStep, Outcome, Pairing, PairingStep};
use wyzesense2mqtt_rs::engine::pending::Pending;
use wyzesense2mqtt_rs::engine::command::{read_count, read_inquiry, read_mac, read_token, read_version};
use wyzesense2mqtt_rs::engine::Engine;
use wyzesense2mqtt_rs::protocol::packet::{commands, Packet, PacketPayload};
use wyzesense2mqtt_rs::protocol::sensor::{SensorManager, WyzeSensor};
use wyzesense2mqtt_rs::protocol::stream::receive;
use wyzesense2mqtt_rs::protocol::telemetry::{DongleEvent, SensorType, TelemetryData};
use wyzesense2mqtt_rs::transport::virtual_dongle::VirtualDongle;
use wyzesense2mqtt_rs::web::{
    check_scan, get_dongle_state, pick_dongle, raw_answered, raw_failed, raw_refused, raw_request,
    sensors_of_dongle, ScanRequest, ScanVerdict,
};

const NOW: u64 = 1_716_570_196_992;

/// A host with one dongle.
struct Host {
    dongle: VirtualDongle,
    engine: Engine,
    buffer: Vec<u8>,
    pending: Pending<()>,
    events: Vec<DongleEvent>,
    listed: Vec<String>,
}

impl Host {
    fn new(dongle: VirtualDongle) -> Host {
        Host {
            dongle,
            engine: Engine::new(),
            buffer: Vec::new(),
            pending: Pending::new(),
            events: Vec::new(),
            listed: Vec::new(),
        }
    }

    fn booted(dongle: VirtualDongle) -> Host {
        let mut h = Host::new(dongle);
        h.handshake().unwrap();
        h
    }

    /// Takes everything that the dongle has to say, and gives the packets that were awaited.
    fn pump(&mut self) -> Vec<Packet> {
        let mut answers = Vec::new();
        let mut buf = [0u8; 1024];
        loop {
            let n = match self.dongle.replay_transport_mut().read(&mut buf) {
                Ok(0) | Err(_) => return answers,
                Ok(n) => n,
            };
            for p in receive(&mut self.buffer, &buf[..n]) {
                let mac = self.engine.dongle_mac().map(|s| s.to_string());
                let r = handle_packet_at(&p, &mac, NOW);
                for reply in &r.replies {
                    self.dongle.replay_transport_mut().write(&reply.to_bytes()).unwrap();
                }
                if let Some(e) = r.event {
                    self.events.push(e);
                }
                if let Some(m) = r.listed {
                    self.listed.push(m);
                }
                if self.pending.take(r.answers).is_some() {
                    answers.push(p);
                }
            }
        }
    }

    fn exchange(&mut self, request: &Request) -> Result<Packet, EngineError> {
        let bytes = Engine::do_command(&mut self.pending, request, ());
        if self.dongle.replay_transport_mut().write(&bytes).is_err() {
            return Err(EngineError::ChannelClosed);
        }
        match self.pump().pop() {
            Some(p) => Ok(p),
            None => Err(Engine::give_up(&mut self.pending, request)),
        }
    }

    fn handshake(&mut self) -> Result<(), EngineError> {
        let mut h = Handshake::new();
        let mut next = self.engine.initialize_handshake(&mut h, None)?;
        while let Some(request) = next {
            let reply = self.exchange(&request)?;
            next = self.engine.initialize_handshake(&mut h, Some(&reply))?;
        }
        assert_eq!(h.step, HandshakeStep::Done);
        Ok(())
    }

    fn set_scan(&mut self, enable: bool) -> Result<(), EngineError> {
        self.exchange(&Engine::set_scan(enable))?;
        self.engine.scan_confirmed(enable);
        Ok(())
    }

    fn delete_sensor(&mut self, mac: &str) -> Result<(), EngineError> {
        let request = Engine::delete_sensor(mac)?;
        self.exchange(&request)?;
        self.engine.delete_confirmed(mac);
        Ok(())
    }

    fn sensor_list(&mut self) -> Result<Vec<String>, EngineError> {
        let reply = self.exchange(&Engine::get_sensor_count())?;
        let mut listing = Listing::new(read_count(&reply)?);
        if let Some(request) = listing.request() {
            self.listed.clear();
            self.exchange(&request)?;
            for mac in std::mem::take(&mut self.listed) {
                if listing.take(mac) {
                    break;
                }
            }
        }
        Ok(listing.found().clone())
    }

    fn event(&mut self) -> DongleEvent {
        self.pump();
        self.events.remove(0)
    }
}

fn manager() -> SensorManager {
    SensorManager::new("sensors.yaml".to_string(), "state.yaml".to_string())
}

fn boot(dongles: Vec<VirtualDongle>) -> (Vec<Host>, SensorManager) {
    let mut m = manager();
    let mut hosts = Vec::new();
    for d in dongles {
        let mut h = Host::booted(d);
        let list = h.sensor_list().unwrap_or_default();
        let mac = h.engine.dongle_mac().unwrap().to_string();
        m.assign_dongle(&mac, &list);
        hosts.push(h);
    }
    (hosts, m)
}

fn sensor_count(m: &SensorManager, dongle: &str) -> usize {
    sensors_of_dongle(m, &Some(dongle.to_string())).len()
}

fn verdict(hosts: &[Host], mac: &str, enable: bool) -> u16 {
    let dongles: Vec<(String, bool)> = hosts
        .iter()
        .map(|h| (h.dongle.mac().to_string(), h.engine.is_scanning()))
        .collect();
    check_scan(&ScanRequest { enable, dongle_mac: mac.to_string() }, &dongles).status()
}

fn state_of(s: &WyzeSensor) -> String {
    s.get_state_payload().get("state").and_then(|v| v.as_str()).unwrap().to_string()
}

// --- Handshake ---

fn replayed() -> VirtualDongle {
    let mut d = VirtualDongle::new("IGNORED1", "V9");
    let t = d.replay_transport_mut();
    *t = wyzesense2mqtt_rs::transport::replay::ReplayTransport::new();
    t.register_response(
        commands::CMD_INQUIRY,
        vec![0x55, 0xAA, 0x43, 0x04, 0x28, 0x01, 0x01, 0x6F],
    );
    let mut enr_resp = vec![0x55, 0xAA, 0x43, 0x13, 0x03];
    enr_resp.extend_from_slice(&[0x31; 16]);
    enr_resp.extend_from_slice(&[0x04, 0x68]);
    t.register_response(commands::CMD_GET_ENR, enr_resp);
    t.register_response(
        commands::CMD_GET_MAC,
        vec![0x55, 0xAA, 0x43, 0x0B, 0x05, 77, 65, 67, 65, 68, 68, 82, 49, 0x03, 0x6F],
    );
    t.register_response(
        commands::CMD_GET_VERSION,
        vec![0x55, 0xAA, 0x53, 0x09, 0x17, 86, 49, 46, 48, 46, 48, 0x02, 0xB5],
    );
    t.register_response(
        commands::CMD_FINISH_AUTH,
        vec![0x55, 0xAA, 0x53, 0x03, 0x15, 0x01, 0x6A],
    );
    d
}

#[test]
fn test_dongle_handshake_integration() {
    let mut h = Host::new(replayed());
    let handshake_res = h.handshake();
    assert!(handshake_res.is_ok(), "Handshake failed: {:?}", handshake_res.err());
    assert_eq!(h.engine.dongle_mac(), Some("MACADDR1"));
    assert_eq!(h.engine.dongle_version(), Some("V1.0.0"));
    assert!(!h.dongle.replay_transport().has_unread());
}

#[test]
fn test_virtual_dongle_handshake() {
    let h = Host::booted(VirtualDongle::new("TESTMAC1", "V3.0.0"));
    assert_eq!(h.engine.dongle_mac(), Some("TESTMAC1"));
    assert_eq!(h.engine.dongle_version(), Some("V3.0.0"));
}

#[test]
fn test_virtual_dongle_scan_event() {
    let mut h = Host::booted(VirtualDongle::new("TESTMAC1", "V3.0.0"));
    h.set_scan(true).unwrap();
    h.dongle.inject_scan_event("SENSOR01", SensorType::ContactV2, 25);
    let event = h.event();
    assert_eq!(event.mac, "SENSOR01");
    assert_eq!(event.sensor_type, SensorType::ContactV2);
    assert_eq!(event.data, TelemetryData::Scanned { version: 25 });
    assert_eq!(event.dongle_mac.as_deref(), Some("TESTMAC1"));
}

#[test]
fn test_virtual_dongle_alarm_event() {
    let mut h = Host::booted(VirtualDongle::new("TESTMAC1", "V3.0.0"));
    h.dongle.inject_alarm_event("SENSOR01", SensorType::ContactV2, 1, 0x5A, 60);
    let event = h.event();
    assert_eq!(event.mac, "SENSOR01");
    match &event.data {
        TelemetryData::Alarm { state, battery, rssi, .. } => {
            assert_eq!(*state, 1);
            assert_eq!(*battery, 0x5A);
            assert_eq!(*rssi, -60);
        }
        other => panic!("Expected Alarm, got {:?}", other),
    }
}

#[test]
fn a_handshake_ends_at_the_first_bad_answer() {
    let mut h = Handshake::new();
    assert_eq!(h.request().unwrap().packet.to_bytes(), vec![0xAA, 0x55, 0x43, 3, 0x27, 1, 0x6C]);
    assert_eq!(
        h.answer(&Packet::new_sync(0x28, vec![0])),
        Err(EngineError::InquiryRefused)
    );
    assert_eq!(h.answer(&Packet::new_sync(0x28, vec![])), Err(EngineError::InquiryRefused));
    assert_eq!(h.answer(&Packet::new_ack(0x4327)), Err(EngineError::InquiryMismatch));
    assert_eq!(h.step, HandshakeStep::Inquiry);
    h.answer(&Packet::new_sync(0x28, vec![1])).unwrap();
    assert_eq!(
        h.request().unwrap().packet.payload,
        PacketPayload::Bytes(vec![0x30; 16])
    );
    assert_eq!(h.answer(&Packet::new_sync(0x03, vec![])), Err(EngineError::EnrMismatch));
    assert_eq!(h.answer(&Packet::new_sync(0x03, vec![0x31; 15])), Err(EngineError::EnrMismatch));
    assert_eq!(h.answer(&Packet::new_sync(0x03, vec![0x31; 17])), Err(EngineError::EnrMismatch));
    assert_eq!(h.answer(&Packet::new_ack(0x5303)), Err(EngineError::EnrMismatch));
    assert_eq!(EngineError::EnrMismatch.message(), "ENR response must be 16 bytes");
    h.answer(&Packet::new_sync(0x03, vec![0x31; 16])).unwrap();
    assert_eq!(
        h.answer(&Packet::new_sync(0x05, vec![0xFF])),
        Err(EngineError::MacNotText)
    );
    assert_eq!(h.answer(&Packet::new_ack(0x4304)), Err(EngineError::MacMismatch));
    h.answer(&Packet::new_sync(0x05, b"77A85A36".to_vec())).unwrap();
    assert_eq!(
        h.answer(&Packet::new_async(0x17, vec![0xFF])),
        Err(EngineError::VersionNotText)
    );
    assert_eq!(h.answer(&Packet::new_ack(0x5316)), Err(EngineError::VersionMismatch));
    let mut engine = Engine::new();
    engine.keep(&h);
    assert_eq!(engine.dongle_mac(), Some("77A85A36"));
    assert_eq!(engine.dongle_version(), None);
    h.answer(&Packet::new_async(0x17, b"V1".to_vec())).unwrap();
    assert_eq!(h.request().unwrap().packet, Packet::new_async(0x14, vec![0xFF]));
    h.answer(&Packet::new_async(0x15, vec![])).unwrap();
    assert!(h.request().is_none());
    engine.keep(&h);
    assert_eq!(engine.dongle_version(), Some("V1"));
}

#[test]
fn a_handshake_tells_the_engine_as_it_goes() {
    let mut engine = Engine::new();
    let mut h = Handshake::new();
    let first = engine.initialize_handshake(&mut h, None).unwrap().unwrap();
    assert_eq!(first.packet, Packet::new_sync(0x27, vec![]));
    assert_eq!(first.expected, commands::CMD_INQUIRY_RESPONSE);
    assert_eq!(
        engine.initialize_handshake(&mut h, Some(&Packet::new_sync(0x28, vec![0]))),
        Err(EngineError::InquiryRefused)
    );
    assert_eq!(h.step, HandshakeStep::Inquiry);
    for (reply, asked) in [
        (Packet::new_sync(0x28, vec![1]), Packet::new_sync(0x02, vec![0x30; 16])),
        (Packet::new_sync(0x03, vec![0x31; 16]), Packet::new_sync(0x04, vec![])),
        (Packet::new_sync(0x05, b"77A85A36".to_vec()), Packet::new_async(0x16, vec![])),
    ] {
        let next = engine.initialize_handshake(&mut h, Some(&reply)).unwrap().unwrap();
        assert_eq!(next.packet, asked);
    }
    assert_eq!(
        engine.initialize_handshake(&mut h, Some(&Packet::new_async(0x17, vec![0xFF]))),
        Err(EngineError::VersionNotText)
    );
    assert_eq!(engine.dongle_mac(), Some("77A85A36"));
    assert_eq!(engine.dongle_version(), None);
    let version = Packet::new_async(0x17, b"V1".to_vec());
    let last = engine.initialize_handshake(&mut h, Some(&version)).unwrap().unwrap();
    assert_eq!(last.packet, Packet::new_async(0x14, vec![0xFF]));
    let auth = Packet::new_async(0x15, vec![]);
    assert_eq!(engine.initialize_handshake(&mut h, Some(&auth)), Ok(None));
    assert_eq!(engine.dongle_version(), Some("V1"));
    assert_eq!(h.step, HandshakeStep::Done);
}

// --- Commands ---

#[test]
fn commands_carry_what_they_should() {
    let r = Engine::set_scan(true);
    assert_eq!(r.packet, Packet::new_async(0x1C, vec![1]));
    assert_eq!(r.expected, commands::CMD_SET_SCAN_RESPONSE);
    assert_eq!(Engine::set_scan(false).packet, Packet::new_async(0x1C, vec![0]));
    let r = Engine::get_sensor_r1("AABBCCDD").unwrap();
    assert_eq!(r.packet, Packet::new_async(0x21, b"AABBCCDDOk5HPNQ4lf77u754".to_vec()));
    assert_eq!(r.expected, commands::CMD_R1_RESPONSE);
    let r = Engine::verify_sensor("AABBCCDD").unwrap();
    assert_eq!(r.packet, Packet::new_async(0x23, b"AABBCCDD\xFF\x04".to_vec()));
    let r = Engine::delete_sensor("AABBCCDD").unwrap();
    assert_eq!(r.packet, Packet::new_async(0x25, b"AABBCCDD".to_vec()));
    let r = Engine::play_chime("AABBCCDD").unwrap();
    assert_eq!(r.packet, Packet::new_async(0x70, b"AABBCCDD\x01\x01\x09".to_vec()));
    assert_eq!(r.expected, commands::CMD_PLAY_CHIME_RESPONSE);
    let r = Engine::get_sensor_list(3);
    assert_eq!(r.packet, Packet::new_async(0x30, vec![3]));
    assert_eq!(r.expected, commands::CMD_GET_SENSOR_LIST);
}

#[test]
fn a_mac_has_eight_bytes() {
    for mac in ["", "ABC", "AABBCCDDE", "ÄÄÄÄÄ"] {
        assert_eq!(Engine::get_sensor_r1(mac).unwrap_err(), EngineError::BadMac);
        assert_eq!(Engine::verify_sensor(mac).unwrap_err(), EngineError::BadMac);
        assert_eq!(Engine::delete_sensor(mac).unwrap_err(), EngineError::BadMac);
        assert_eq!(Engine::play_chime(mac).unwrap_err(), EngineError::BadMac);
    }
    assert_eq!(EngineError::BadMac.message(), "MAC address must be 8 characters");
    assert!(Engine::delete_sensor("ÄÄÄÄ").is_ok());
}

#[test]
fn every_error_has_its_message() {
    let cases = vec![
        (EngineError::InquiryRefused, "Inquiry verification failed"),
        (EngineError::InquiryMismatch, "Inquiry response payload mismatch"),
        (EngineError::MacNotText, "MAC has non-UTF8 bytes"),
        (EngineError::MacMismatch, "MAC response payload mismatch"),
        (EngineError::VersionNotText, "Version string has non-UTF8 bytes"),
        (EngineError::VersionMismatch, "Version response payload mismatch"),
        (EngineError::CountEmpty, "Empty sensor count response"),
        (EngineError::CountMismatch, "Invalid sensor count response payload"),
        (EngineError::TokenMismatch, "Unexpected R1 response type"),
        (EngineError::ChannelClosed, "Oneshot channel closed"),
        (
            EngineError::TimedOut { cmd: 0x531C, expected: 0x531D },
            "Command 531C timed out waiting for response 531D",
        ),
    ];
    for (e, m) in cases {
        assert_eq!(e.message(), m);
    }
}

#[test]
fn answers_are_read() {
    assert_eq!(read_inquiry(&Packet::new_sync(0x28, vec![1])), Ok(()));
    assert_eq!(
        read_inquiry(&Packet::new_sync(0x28, vec![1, 2])),
        Err(EngineError::InquiryRefused)
    );
    assert_eq!(read_mac(&Packet::new_sync(5, b"M".to_vec())), Ok("M".to_string()));
    assert_eq!(read_version(&Packet::new_async(0x17, vec![])), Ok(String::new()));
    assert_eq!(read_count(&Packet::new_async(0x2F, vec![7, 8])), Ok(7));
    assert_eq!(read_count(&Packet::new_async(0x2F, vec![])), Err(EngineError::CountEmpty));
    assert_eq!(read_count(&Packet::new_ack(0x532E)), Err(EngineError::CountMismatch));
    assert_eq!(read_token(&Packet::new_async(0x22, vec![9])), Ok(vec![9]));
    assert_eq!(read_token(&Packet::new_ack(0x5321)), Err(EngineError::TokenMismatch));
}

#[test]
fn a_command_without_an_answer_times_out() {
    let mut h = Host::booted(VirtualDongle::new("DONGLE_A", "V1"));
    let request = Engine::get_sensor_count();
    assert_eq!(
        h.exchange(&request).unwrap_err(),
        EngineError::TimedOut { cmd: 0x532E, expected: 0x532F }
    );
    assert_eq!(h.pending.take(0x532F), None);
}

#[test]
fn who_asks_later_takes_the_place() {
    let mut p: Pending<u32> = Pending::new();
    assert_eq!(p.wait(5, 1), None);
    assert_eq!(p.wait(5, 2), Some(1));
    assert_eq!(p.wait(6, 3), None);
    assert_eq!(p.take(5), Some(2));
    assert_eq!(p.take(5), None);
    assert_eq!(p.take(6), Some(3));
}

// --- Packets from the dongle ---

#[test]
fn async_packets_are_acknowledged() {
    let p = Packet::new_async(0x17, vec![1]);
    let r = handle_packet_at(&p, &None, NOW);
    assert_eq!(r.answers, 0x5317);
    assert_eq!(r.replies, vec![Packet::new_ack(0x5317)]);
    let r = handle_packet_at(&Packet::new_ack(0x5330), &None, NOW);
    assert_eq!(r.answers, 0x5330);
    assert!(r.replies.is_empty());
    let r = handle_packet_at(&Packet::new_sync(0x28, vec![1]), &None, NOW);
    assert_eq!(r.answers, 0x4328);
    assert!(r.replies.is_empty());
    assert!(r.event.is_none() && r.listed.is_none() && r.log.is_none());
}

#[test]
fn the_time_is_told() {
    let r = handle_packet_at(&Packet::new_async(0x32, vec![]), &None, 0x0102030405060708);
    assert_eq!(
        r.replies,
        vec![
            Packet::new_ack(0x5332),
            Packet::new_async(0x33, vec![1, 2, 3, 4, 5, 6, 7, 8]),
        ]
    );
    let r = handle_packet(&Packet::new_async(0x32, vec![]), &None);
    assert_eq!(r.replies.len(), 2);
}

#[test]
fn log_lines_are_told_in_words() {
    let payload = vec![0, 0, 0, 0, 0, 0, 1, 0, 2, 0xAB, 0x0C];
    let r = handle_packet_at(&Packet::new_async(0x35, payload), &None, NOW);
    let log = r.log.unwrap();
    assert_eq!(log.timestamp_ms, 256);
    assert_eq!(log.msg_len, 2);
    assert_eq!(log.describe(), "EVENT LOG: ts=256, msg_len=2, data=[ab,0c]");
    let r = handle_packet_at(&Packet::new_async(0x35, vec![1; 8]), &None, NOW);
    assert!(r.log.is_none());
}

#[test]
fn telemetry_that_is_not_understood_is_dropped() {
    for id in [0x19u8, 0x55, 0x20] {
        let r = handle_packet_at(&Packet::new_async(id, vec![1, 2, 3]), &None, NOW);
        assert!(r.event.is_none());
        assert_eq!(r.replies.len(), 1);
    }
    let r = handle_packet_at(&Packet::new_async(0x31, vec![0xFF]), &None, NOW);
    assert!(r.listed.is_none());
}

// --- Listing ---

#[test]
fn a_listing_counts_each_sensor_once() {
    let mut l = Listing::new(2);
    assert!(!l.take("S0000001".to_string()));
    assert!(!l.take("S0000001".to_string()));
    assert!(l.take("S0000002".to_string()));
    assert!(l.take("S0000003".to_string()));
    assert_eq!(l.found(), &vec!["S0000001".to_string(), "S0000002".to_string()]);
    let none = Listing::new(0);
    assert!(none.request().is_none());
    assert!(none.is_complete());
}

#[test]
fn ghosts_are_told_from_sensors() {
    assert!(is_ghost("00000000"));
    assert!(is_ghost("\0\0\0\0\0\0\0\0"));
    assert!(is_ghost("ABC\0\0\0\0\0"));
    assert!(is_ghost("AB-D1234"));
    assert!(is_ghost(""));
    assert!(!is_ghost("ABCD1234"));
    assert!(!is_ghost("ÄBCD123"));
    let macs = vec!["00000000".to_string(), "ABCD1234".to_string(), "A B".to_string()];
    assert_eq!(ghosts(&macs), vec!["00000000".to_string(), "A B".to_string()]);
}

#[test]
fn a_sensor_that_is_deleted_leaves_the_memory() {
    let mut h = Host::booted(VirtualDongle::new("DONGLE_A", "V1"));
    h.engine.register_sensor("SENSOR01", SensorType::ContactV2);
    h.engine.register_sensor_locally("SENSOR02", "MotionV1", "7");
    let list = h.engine.get_rich_sensors();
    assert_eq!(list.len(), 2);
    assert_eq!(list[0].mac, "SENSOR01");
    assert_eq!(list[0].sensor_type, "ContactV2");
    assert_eq!(list[0].version, "1");
    assert_eq!(list[0].battery, 100);
    assert_eq!(list[0].signal, -60);
    assert_eq!(list[1].version, "7");
    h.delete_sensor("SENSOR01").unwrap();
    let list = h.engine.get_rich_sensors();
    assert_eq!(list.len(), 1);
    assert_eq!(list[0].mac, "SENSOR02");
}

#[test]
fn silent_sensors_are_given_up_once() {
    let mut e = Engine::new();
    e.register_sensor_locally_at("SENSOR01", "MotionV2", "1", 1000);
    e.register_sensor_locally_at("SENSOR02", "Toaster", "1", 5000);
    assert!(e.expire_sensors(1000 * 1000 + 7_200_000).is_empty());
    let gone = e.expire_sensors(1000 * 1000 + 7_200_001);
    assert_eq!(gone.len(), 1);
    assert_eq!(gone[0].mac, "SENSOR01");
    assert_eq!(gone[0].sensor_type, SensorType::MotionV2);
    assert_eq!(gone[0].data, TelemetryData::Offline);
    assert!(e.expire_sensors(1000 * 1000 + 7_200_001).is_empty());
    let gone = e.expire_sensors(u64::MAX);
    assert_eq!(gone[0].sensor_type, SensorType::Unknown(0));
    assert!(e.get_rich_sensors().is_empty());
}

// --- Pairing ---

#[test]
fn a_scanned_sensor_is_paired_in_three_steps() {
    let mut dongle = VirtualDongle::new("DONGLE_A", "V1");
    dongle
        .replay_transport_mut()
        .register_response(commands::CMD_GET_R1, Packet::new_async(0x22, vec![0xAA; 16]).to_bytes());
    dongle.register_extra_scan_responses(0, 1);
    let mut h = Host::booted(dongle);
    assert!(!h.engine.auto_verify());
    h.engine.set_auto_verify(true);
    assert!(h.engine.auto_verify());
    h.dongle.inject_scan_event("NEWSENS1", SensorType::MotionV2, 25);
    let event = h.event();
    let mut p = Pairing::of_event(&event).unwrap();
    let mut asked = Vec::new();
    while let Some(request) = p.request() {
        asked.push(request.packet.cmd());
        let outcome = match h.exchange(&request) {
            Ok(packet) => Outcome::Answer(packet),
            Err(_) => Outcome::Failure,
        };
        p.advance(&outcome);
    }
    assert_eq!(
        asked,
        vec![commands::CMD_GET_R1, commands::CMD_SET_SCAN, commands::CMD_VERIFY_SENSOR]
    );
    assert_eq!(p.step, PairingStep::Paired);
    let paired = p.event(&Some("DONGLE_A".to_string()), NOW).unwrap();
    assert_eq!(paired.mac, "NEWSENS1");
    assert_eq!(paired.data, TelemetryData::Paired { version: 25 });

    let mut m = manager();
    let mut config = SensorsConfig::new();
    assert!(m.dispatch_event(&paired, &mut config, NOW / 1000));
    let s = m.get_sensors().get("NEWSENS1").unwrap();
    assert_eq!(s.dongle_mac.as_deref(), Some("DONGLE_A"));
    assert_eq!(s.sensor_type, SensorType::MotionV2);
    assert_eq!(s.sw_version, "25");
    assert_eq!(s.friendly_name, "Wyze MOTIONV2 ENS1");
}

#[test]
fn a_pairing_fails_without_token_or_confirmation() {
    let mut p = Pairing::new("NEWSENS1".to_string(), SensorType::ContactV1, 1);
    p.advance(&Outcome::Failure);
    assert_eq!(p.step, PairingStep::Failed);
    assert!(p.request().is_none());
    assert!(p.event(&None, NOW).is_none());
    let mut p = Pairing::new("NEWSENS1".to_string(), SensorType::ContactV1, 1);
    p.advance(&Outcome::Answer(Packet::new_async(0x22, vec![1])));
    p.advance(&Outcome::Failure);
    assert_eq!(p.step, PairingStep::Verify);
    p.advance(&Outcome::Failure);
    assert_eq!(p.step, PairingStep::Failed);
    let p = Pairing::new("SHORT".to_string(), SensorType::ContactV1, 1);
    assert_eq!(p.step, PairingStep::Failed);
}

// --- One dongle, several dongles ---

#[test]
fn sensor_lifecycle_over_a_replayed_dongle() {
    let mut d = replayed();
    let t = d.replay_transport_mut();
    t.register_response(
        commands::CMD_SET_SCAN,
        vec![0x55, 0xAA, 0x53, 0x04, 0x1D, 0x01, 0x01, 0x74],
    );
    t.register_response(
        commands::CMD_VERIFY_SENSOR,
        vec![0x55, 0xAA, 0x53, 0x04, 0x24, 0x01, 0x01, 0x7B],
    );
    t.register_response(
        commands::CMD_SET_SCAN,
        vec![0x55, 0xAA, 0x53, 0x04, 0x1D, 0x00, 0x01, 0x73],
    );
    t.register_response(
        commands::CMD_DELETE_SENSOR,
        vec![0x55, 0xAA, 0x53, 0x04, 0x26, 0x01, 0x01, 0x7D],
    );
    let mut h = Host::booted(d);
    h.set_scan(true).unwrap();
    h.dongle.replay_transport_mut().enqueue_read(&[
        0x55, 0xAA, 0x53, 0x0E, 0x20, 0xA3, 83, 69, 78, 83, 79, 48, 48, 49, 0x01, 0x17, 0x04, 0x54,
    ]);
    let scan_event = h.event();
    assert_eq!(scan_event.mac, "SENSO001");
    assert_eq!(scan_event.sensor_type, SensorType::ContactV1);
    assert_eq!(scan_event.data, TelemetryData::Scanned { version: 23 });
    let verify = Engine::verify_sensor("SENSO001").unwrap();
    h.exchange(&verify).unwrap();
    h.set_scan(false).unwrap();

    let mut alarm_payload = vec![0x55, 0xAA, 0x53, 0x1D, 0x19];
    alarm_payload.extend_from_slice(&[
        0x00, 0x00, 0x01, 0x8F, 0xAB, 0x8E, 0x8C, 0x00, 0xA2, 83, 69, 78, 83, 79, 48, 48, 49, 0x01,
        0x01, 0x5A, 0x00, 0x00, 0x01, 0x00, 0x0A, 0x3C,
    ]);
    let cs = Packet::calculate_checksum(&alarm_payload);
    alarm_payload.push((cs >> 8) as u8);
    alarm_payload.push((cs & 0xFF) as u8);
    h.dongle.replay_transport_mut().enqueue_read(&alarm_payload);
    let alarm_event = h.event();
    assert_eq!(alarm_event.mac, "SENSO001");
    let mut sensor = WyzeSensor::new(
        alarm_event.mac.clone(),
        alarm_event.sensor_type,
        "Contact Sensor".to_string(),
    );
    sensor.update_from_event(&alarm_event).unwrap();
    assert_eq!(sensor.battery_raw, Some(0x5A));
    assert_eq!(sensor.rssi_dbm, -60);
    assert_eq!(state_of(&sensor), "open");
    h.delete_sensor("SENSO001").unwrap();
    assert!(!h.dongle.replay_transport().has_unread());
}

#[test]
fn test_single_dongle_sensor_lifecycle() {
    let (mut hosts, m) = boot(vec![VirtualDongle::new("DONGLE_A", "V2.3.9")]);
    assert_eq!(hosts.len(), 1);
    assert_eq!(sensor_count(&m, "DONGLE_A"), 0);
    assert_eq!(verdict(&hosts, "DONGLE_A", true), 200);
    let h = &mut hosts[0];
    h.set_scan(true).unwrap();
    h.dongle.inject_scan_event("SENSOR01", SensorType::ContactV2, 25);
    let event = h.event();
    assert_eq!(event.mac, "SENSOR01");
    assert_eq!(event.sensor_type, SensorType::ContactV2);
    assert_eq!(event.data, TelemetryData::Scanned { version: 25 });
    h.set_scan(false).unwrap();
    assert!(!h.engine.is_scanning());
    h.dongle.inject_alarm_event("SENSOR01", SensorType::ContactV2, 1, 0x5A, 60);
    let event = h.event();
    assert_eq!(event.mac, "SENSOR01");
    match &event.data {
        TelemetryData::Alarm { state, rssi, .. } => {
            assert_eq!(*state, 1, "Door should be open");
            assert_eq!(*rssi, -60);
        }
        other => panic!("Expected Alarm, got {:?}", other),
    }
    let mut sensor =
        WyzeSensor::new("SENSOR01".to_string(), SensorType::ContactV2, "Test".to_string());
    sensor.update_from_event(&event).unwrap();
    assert_eq!(state_of(&sensor), "open");
    assert_eq!(
        pick_dongle(&m, "SENSOR01", &None, &["DONGLE_A".to_string()]),
        Some(0)
    );
    hosts[0].delete_sensor("SENSOR01").unwrap();
}

#[test]
fn test_multi_dongle_sensor_isolation() {
    let (mut hosts, m) = boot(vec![
        VirtualDongle::new("DONGLE_A", "V2.3.9").with_sensors(vec!["SENSOR_A".to_string()]),
        VirtualDongle::new("DONGLE_B", "V1.0.0").with_sensors(vec!["SENSOR_B".to_string()]),
    ]);
    assert_eq!(sensor_count(&m, "DONGLE_A"), 1, "DONGLE_A should have 1 sensor");
    assert_eq!(sensor_count(&m, "DONGLE_B"), 1, "DONGLE_B should have 1 sensor");
    hosts[0].dongle.inject_alarm_event("SENSOR_A", SensorType::ContactV2, 1, 0x5A, 50);
    let event = hosts[0].event();
    assert_eq!(event.mac, "SENSOR_A");
    assert_eq!(event.dongle_mac.as_deref(), Some("DONGLE_A"));
    hosts[1].dongle.inject_heartbeat_event("SENSOR_B", SensorType::MotionV2, 0x64, 40);
    let event = hosts[1].event();
    assert_eq!(event.mac, "SENSOR_B");
    assert!(hosts[0].events.is_empty());
}

#[test]
fn test_exclusive_scan_enforcement() {
    let mut b = VirtualDongle::new("DONGLE_B", "V2.0.0");
    b.register_extra_scan_responses(1, 1);
    let (mut hosts, _m) = boot(vec![VirtualDongle::new("DONGLE_A", "V2.0.0"), b]);
    assert_eq!(verdict(&hosts, "DONGLE_A", true), 200);
    hosts[0].set_scan(true).unwrap();
    assert_eq!(verdict(&hosts, "DONGLE_B", true), 409, "Should reject concurrent scan");
    assert_eq!(verdict(&hosts, "DONGLE_A", false), 200);
    hosts[0].set_scan(false).unwrap();
    assert_eq!(verdict(&hosts, "DONGLE_B", true), 200);
    hosts[1].set_scan(true).unwrap();
    assert_eq!(verdict(&hosts, "DONGLE_B", false), 200);
    hosts[1].set_scan(false).unwrap();
}

#[test]
fn scan_requests_name_a_dongle() {
    let (hosts, _m) = boot(vec![VirtualDongle::new("DONGLE_A", "V2.0.0")]);
    assert_eq!(verdict(&hosts, "NONEXISTENT", true), 404, "Unknown dongle should return 404");
    assert_eq!(verdict(&hosts, "DONGLE_A", true), 200, "Valid request should succeed");
    assert_eq!(ScanVerdict::Busy.status(), 409);
}

#[test]
fn test_raw_packet_roundtrip() {
    let mut dongle = VirtualDongle::new("DONGLE_A", "V2.0.0");
    let mac_resp = Packet::new_sync(0x05, b"DONGLE_A".to_vec());
    dongle
        .replay_transport_mut()
        .register_response(commands::CMD_GET_MAC, mac_resp.to_bytes());
    let mut h = Host::booted(dongle);
    let raw_bytes = Packet::new_sync(0x04, vec![]).to_bytes();
    let request = raw_request(&raw_bytes).unwrap();
    assert_eq!(request.expected, commands::CMD_MAC_RESPONSE);
    let reply = h.exchange(&request).unwrap();
    let response_bytes = raw_answered(&reply).response_bytes;
    let (parsed, _) = Packet::parse(&response_bytes).unwrap();
    let payload = parsed.payload_bytes().unwrap();
    let mac_str = String::from_utf8(payload.to_vec()).unwrap();
    assert_eq!(mac_str, "DONGLE_A");
}

#[test]
fn test_web_endpoints_integration() {
    let mut d = replayed();
    d.replay_transport_mut().register_response(
        commands::CMD_GET_MAC,
        vec![0x55, 0xAA, 0x43, 0x0B, 0x05, 77, 65, 67, 65, 68, 68, 82, 49, 0x03, 0x6F],
    );
    let mut h = Host::booted(d);
    let body = get_dongle_state(&h.engine);
    assert!(body.connected);
    assert_eq!(body.mac.as_deref(), Some("MACADDR1"));
    assert_eq!(body.version.as_deref(), Some("V1.0.0"));

    let request = raw_request(&[170, 85, 67, 3, 4, 1, 73]).unwrap();
    let reply = h.exchange(&request).unwrap();
    let expected_resp_bytes = vec![170, 85, 67, 11, 5, 77, 65, 67, 65, 68, 68, 82, 49, 3, 111];
    assert_eq!(raw_answered(&reply).response_bytes, expected_resp_bytes);

    let e = raw_request(&[170, 85, 67, 3, 4, 1, 74]).unwrap_err();
    assert_eq!(
        raw_refused(e),
        "Failed to parse input bytes as Packet structure: Mismatched checksum in packet"
    );
    assert_eq!(raw_failed("x"), "Dongle failed raw execution: x");
    let nothing = get_dongle_state(&Engine::new());
    assert!(!nothing.connected && nothing.mac.is_none() && nothing.version.is_none());
}

#[test]
fn test_pre_paired_sensor_warmup() {
    let (_hosts, m) = boot(vec![VirtualDongle::new("DONGLE_A", "V2.3.9").with_sensors(vec![
        "S0000001".to_string(),
        "S0000002".to_string(),
        "S0000003".to_string(),
    ])]);
    assert_eq!(sensor_count(&m, "DONGLE_A"), 3, "Should have 3 pre-paired sensors");
    for mac in &["S0000001", "S0000002", "S0000003"] {
        let sensor = m.get_sensors().get(mac).unwrap();
        assert_eq!(sensor.dongle_mac.as_deref(), Some("DONGLE_A"));
    }
}

#[test]
fn test_alarm_state_change_open_close() {
    let mut h = Host::booted(VirtualDongle::new("DONGLE_A", "V2.3.9"));
    h.dongle.inject_alarm_event("SENSOR01", SensorType::ContactV2, 1, 0x5A, 60);
    let open_event = h.event();
    let mut sensor =
        WyzeSensor::new("SENSOR01".to_string(), SensorType::ContactV2, "Door".to_string());
    sensor.update_from_event(&open_event).unwrap();
    assert_eq!(state_of(&sensor), "open");
    assert!(sensor.battery_pct.is_some(), "Battery should be computed");
    assert_eq!(sensor.rssi_dbm, -60);

    h.dongle.inject_heartbeat_event("SENSOR01", SensorType::ContactV2, 0x5A, 60);
    let hb_event = h.event();
    sensor.update_from_event(&hb_event).unwrap();
    assert_eq!(state_of(&sensor), "open", "Heartbeat should not change state");

    h.dongle.inject_alarm_event("SENSOR01", SensorType::ContactV2, 0, 0x5A, 60);
    let close_event = h.event();
    sensor.update_from_event(&close_event).unwrap();
    assert_eq!(state_of(&sensor), "closed");
}

#[test]
fn test_climate_and_leak_events() {
    let mut h = Host::booted(VirtualDongle::new("DONGLE_A", "V2.3.9"));
    h.dongle.inject_climate_event("CLIMATE1", 23, 50, 55, 0x64, 50);
    let event = h.event();
    assert_eq!(event.mac, "CLIMATE1");
    match &event.data {
        TelemetryData::Climate { temperature, humidity, battery, rssi } => {
            assert_eq!(*temperature, 2350);
            assert_eq!(*humidity, 55);
            assert_eq!(*battery, 0x64);
            assert_eq!(*rssi, -50);
        }
        other => panic!("Expected Climate, got {:?}", other),
    }
    h.dongle.inject_leak_event("LEAK0001", 1, true, 0, 0x5A, 45);
    let event = h.event();
    assert_eq!(event.mac, "LEAK0001");
    match &event.data {
        TelemetryData::Leak { state, probe_available, probe_state, battery, rssi } => {
            assert_eq!(*state, 1, "Should be wet");
            assert!(*probe_available, "Probe should be available");
            assert_eq!(*probe_state, 0, "Probe should be dry");
            assert_eq!(*battery, 0x5A);
            assert_eq!(*rssi, -45);
        }
        other => panic!("Expected Leak, got {:?}", other),
    }
}

#[test]
fn test_auto_pairing_dongle_association() {
    let mut a = VirtualDongle::new("DONGLE_A", "V2.3.9");
    a.register_extra_scan_responses(1, 1);
    a.register_extra_verify_responses(1);
    let (mut hosts, mut m) = boot(vec![a, VirtualDongle::new("DONGLE_B", "V2.3.9")]);
    assert_eq!(verdict(&hosts, "DONGLE_A", true), 200);
    hosts[0].set_scan(true).unwrap();
    hosts[0].dongle.inject_scan_event("NEWSENS1", SensorType::ContactV2, 25);
    let event = hosts[0].event();
    assert_eq!(event.mac, "NEWSENS1");
    assert_eq!(event.data, TelemetryData::Scanned { version: 25 });
    let verify = Engine::verify_sensor("NEWSENS1").unwrap();
    hosts[0].exchange(&verify).unwrap();
    m.assign_dongle("DONGLE_A", &["NEWSENS1".to_string()]);
    hosts[0].set_scan(false).unwrap();
    let sensor = m.get_sensors().get("NEWSENS1").expect("Sensor NEWSENS1 should exist");
    assert_eq!(sensor.dongle_mac.as_deref(), Some("DONGLE_A"));
    assert!(sensor_count(&m, "DONGLE_A") >= 1);
}

/// Drops the hosts whose dongle is gone, and what these owned. Says which they were.
fn drop_disconnected(hosts: &mut Vec<Host>, m: &mut SensorManager) -> Vec<String> {
    let mut gone = Vec::new();
    let mut buf = [0u8; 0];
    hosts.retain_mut(|h| {
        let there = h.dongle.replay_transport_mut().read(&mut buf).is_ok();
        if !there {
            gone.push(h.dongle.mac().to_string());
        }
        there
    });
    for mac in &gone {
        m.unassign_dongle(mac);
    }
    gone
}

#[test]
fn test_dongle_disconnect_cleanup() {
    let (mut hosts, mut m) = boot(vec![
        VirtualDongle::new("DONGLE_A", "V2.3.9").with_sensors(vec!["SENSORA1".to_string()]),
        VirtualDongle::new("DONGLE_B", "V2.3.9").with_sensors(vec!["SENSORB1".to_string()]),
    ]);
    assert_eq!(hosts.len(), 2);
    hosts[0].dongle.disconnect();
    assert!(hosts[0].exchange(&Engine::set_scan(true)).is_err());
    assert_eq!(drop_disconnected(&mut hosts, &mut m), vec!["DONGLE_A".to_string()]);
    assert_eq!(hosts.len(), 1, "Only 1 dongle should remain");
    assert_eq!(hosts[0].dongle.mac(), "DONGLE_B");
    assert_ne!(
        m.get_sensors().get("SENSORA1").unwrap().dongle_mac.as_deref(),
        Some("DONGLE_A")
    );
    assert_eq!(
        m.get_sensors().get("SENSORB1").unwrap().dongle_mac.as_deref(),
        Some("DONGLE_B")
    );
    assert_eq!(sensors_of_dongle(&m, &None).len(), 1);
}

#[test]
fn test_sensor_repairing_after_disconnect() {
    let mut b = VirtualDongle::new("DONGLE_B", "V2.3.9");
    b.register_extra_scan_responses(1, 1);
    b.register_extra_verify_responses(1);
    let (mut hosts, mut m) = boot(vec![
        VirtualDongle::new("DONGLE_A", "V2.3.9").with_sensors(vec!["SHARED01".to_string()]),
        b,
    ]);
    assert_eq!(
        m.get_sensors().get("SHARED01").unwrap().dongle_mac.as_deref(),
        Some("DONGLE_A")
    );
    hosts[0].dongle.disconnect();
    assert_eq!(drop_disconnected(&mut hosts, &mut m), vec!["DONGLE_A".to_string()]);
    assert_eq!(
        m.get_sensors().get("SHARED01").expect("SHARED01 should still exist").dongle_mac,
        None
    );
    assert_eq!(verdict(&hosts, "DONGLE_B", true), 200);
    hosts[0].set_scan(true).unwrap();
    hosts[0].dongle.inject_scan_event("SHARED01", SensorType::ContactV2, 25);
    assert_eq!(hosts[0].event().mac, "SHARED01");
    let verify = Engine::verify_sensor("SHARED01").unwrap();
    hosts[0].exchange(&verify).unwrap();
    m.assign_dongle("DONGLE_B", &["SHARED01".to_string()]);
    assert_eq!(
        m.get_sensors().get("SHARED01").unwrap().dongle_mac.as_deref(),
        Some("DONGLE_B")
    );
}

#[test]
fn test_leak_event_state_transitions() {
    let mut h = Host::booted(VirtualDongle::new("DONGLE_A", "V2.3.9"));
    h.dongle.inject_leak_event("LEAK0001", 1, false, 0, 0x52, 40);
    let event = h.event();
    assert_eq!(event.mac, "LEAK0001");
    match &event.data {
        TelemetryData::Leak { state, probe_available, battery, rssi, .. } => {
            assert_eq!(*state, 1, "Should be wet");
            assert!(!*probe_available);
            assert_eq!(*battery, 0x52);
            assert_eq!(*rssi, -40);
        }
        other => panic!("Expected Leak, got {:?}", other),
    }
    let mut sensor =
        WyzeSensor::new("LEAK0001".to_string(), SensorType::LeakV2, "Leak".to_string());
    sensor.update_from_event(&event).unwrap();
    assert_eq!(state_of(&sensor), "wet");

    h.dongle.inject_leak_event("LEAK0001", 0, false, 0, 0x52, 40);
    let event = h.event();
    match &event.data {
        TelemetryData::Leak { state, .. } => {
            assert_eq!(*state, 0, "Should be dry");
        }
        other => panic!("Expected Leak, got {:?}", other),
    }
    sensor.update_from_event(&event).unwrap();
    assert_eq!(state_of(&sensor), "dry");
}

#[test]
fn test_battery_level_propagation() {
    let mut h = Host::booted(VirtualDongle::new("DONGLE_A", "V2.3.9"));
    h.dongle.inject_alarm_event("BATSENS1", SensorType::ContactV2, 0, 48, 50);
    let event1 = h.event();
    match &event1.data {
        TelemetryData::Alarm { battery, .. } => assert_eq!(*battery, 48),
        other => panic!("Expected Alarm, got {:?}", other),
    }
    let mut sensor =
        WyzeSensor::new("BATSENS1".to_string(), SensorType::ContactV2, "Bat".to_string());
    sensor.update_from_event(&event1).unwrap();
    let battery_high = sensor.battery_pct.expect("Battery should be computed");

    h.dongle.inject_alarm_event("BATSENS1", SensorType::ContactV2, 0, 35, 50);
    let event2 = h.event();
    match &event2.data {
        TelemetryData::Alarm { battery, .. } => assert_eq!(*battery, 35),
        other => panic!("Expected Alarm, got {:?}", other),
    }
    sensor.update_from_event(&event2).unwrap();
    let battery_low = sensor.battery_pct.expect("Battery should still be computed");
    assert!(
        battery_low < battery_high,
        "Lower raw battery (35) should produce lower pct ({}% vs {}%)",
        battery_low,
        battery_high
    );
}

#[test]
fn test_three_dongle_lifecycle() {
    let mut a = VirtualDongle::new("DONGLE_A", "V2.3.9").with_sensors(vec![
        "SENSORA1".to_string(),
        "SENSORA2".to_string(),
        "SENSORA3".to_string(),
    ]);
    a.register_extra_scan_responses(1, 1);
    a.register_extra_verify_responses(1);
    let b = VirtualDongle::new("DONGLE_B", "V2.3.9")
        .with_sensors(vec!["SENSORB1".to_string(), "SENSORB2".to_string()]);
    let c = VirtualDongle::new("DONGLE_C", "V2.3.9").with_sensors(vec![
        "SENSORC1".to_string(),
        "SENSORC2".to_string(),
        "SENSORC3".to_string(),
    ]);
    let (mut hosts, mut m) = boot(vec![a, b, c]);
    assert_eq!(hosts.len(), 3, "Should have 3 dongles");
    let total: usize = hosts.iter().map(|h| sensor_count(&m, h.dongle.mac())).sum();
    assert_eq!(total, 8, "Should have 8 total sensors");

    hosts[1].dongle.disconnect();
    assert_eq!(drop_disconnected(&mut hosts, &mut m), vec!["DONGLE_B".to_string()]);
    assert_eq!(hosts.len(), 2, "Should have 2 dongles after disconnect");
    assert!(hosts.iter().all(|h| h.dongle.mac() != "DONGLE_B"));

    assert_eq!(verdict(&hosts, "DONGLE_A", true), 200);
    hosts[0].set_scan(true).unwrap();
    hosts[0].dongle.inject_scan_event("SENSORB1", SensorType::ContactV2, 25);
    assert_eq!(hosts[0].event().mac, "SENSORB1");
    let verify = Engine::verify_sensor("SENSORB1").unwrap();
    hosts[0].exchange(&verify).unwrap();
    m.assign_dongle("DONGLE_A", &["SENSORB1".to_string()]);
    hosts[0].set_scan(false).unwrap();
    assert_eq!(
        m.get_sensors().get("SENSORB1").unwrap().dongle_mac.as_deref(),
        Some("DONGLE_A")
    );
    assert_eq!(sensor_count(&m, "DONGLE_A"), 4, "DONGLE_A should now have 4 sensors");
}

// --- Pairing by hand ---

fn scanned(mac: &str) -> DongleEvent {
    let payload = [&[0xA3u8][..], mac.as_bytes(), &[0x0E, 25]].concat();
    handle_packet_at(&Packet::new_async(0x20, payload), &None, NOW).event.unwrap()
}

#[test]
fn a_sensor_is_paired_by_hand_without_its_token() {
    let mut p = HandPairing::new();
    assert_eq!(p.request().unwrap().packet, Packet::new_async(0x1C, vec![1]));
    p.advance(&Outcome::Answer(Packet::new_async(0x1D, vec![1])));
    assert_eq!(p.step, HandStep::Wait);
    assert!(p.request().is_none());
    p.hear(&scanned("SENSOR01"));
    p.hear(&scanned("SENSOR02"));
    assert_eq!(p.mac.as_deref(), Some("SENSOR01"));
    assert_eq!(p.request(), Some(Engine::get_sensor_r1("SENSOR01").unwrap()));
    p.advance(&Outcome::Failure);
    assert!(!p.token);
    assert_eq!(p.request(), Some(Engine::verify_sensor("SENSOR01").unwrap()));
    p.advance(&Outcome::Answer(Packet::new_async(0x24, vec![1])));
    assert!(p.bound);
    assert_eq!(p.request().unwrap().packet, Packet::new_async(0x1C, vec![0]));
    p.advance(&Outcome::Failure);
    assert_eq!(p.step, HandStep::Over);
    assert!(p.request().is_none());
}

#[test]
fn a_search_by_hand_is_ended_when_nobody_comes() {
    let mut p = HandPairing::new();
    p.advance(&Outcome::Answer(Packet::new_async(0x1D, vec![1])));
    p.give_up();
    assert_eq!(p.step, HandStep::StopScan);
    p.advance(&Outcome::Answer(Packet::new_async(0x1D, vec![0])));
    assert_eq!((p.step, p.bound), (HandStep::Over, false));
    let mut p = HandPairing::new();
    p.advance(&Outcome::Failure);
    assert_eq!(p.step, HandStep::Over);
}

#[test]
fn a_token_may_take_longer() {
    assert_eq!(Engine::get_sensor_r1("SENSOR01").unwrap().patience_ms(), 10_000);
    assert_eq!(Engine::set_scan(true).patience_ms(), 5_000);
}
