//! The transport that replays what it was told, and the dongle on top of it.
use wyzesense2mqtt_rs::protocol::packet::{commands, Packet};
use wyzesense2mqtt_rs::transport::replay::ReplayTransport;
use wyzesense2mqtt_rs::transport::virtual_dongle::VirtualDongle;
use wyzesense2mqtt_rs::transport::TransportError;

#[test]
fn test_replay_transport_read_write() {
    let mut transport = ReplayTransport::new();
    transport.enqueue_read(&[1, 2, 3, 4]);

    let mut buf = [0u8; 10];
    let bytes_read = transport.read(&mut buf).unwrap();
    assert_eq!(bytes_read, 4);
    assert_eq!(&buf[..4], &[1, 2, 3, 4]);

    transport.write(&[5, 6, 7]).unwrap();
    assert_eq!(transport.get_written(), vec![5, 6, 7]);
    transport.clear_written();
    assert!(transport.get_written().is_empty());
}

#[test]
fn a_command_is_answered_once_for_each_reply() {
    let mut transport = ReplayTransport::new();
    transport.register_response(commands::CMD_INQUIRY, vec![1, 2]);
    transport.register_response(commands::CMD_INQUIRY, vec![3]);
    let inquiry = Packet::new_sync(0x27, vec![]).to_bytes();
    let mut buf = [0u8; 8];
    assert!(!transport.has_unread());
    transport.write(&inquiry).unwrap();
    assert!(transport.has_unread());
    assert_eq!(transport.read(&mut buf).unwrap(), 2);
    assert_eq!(&buf[..2], &[1, 2]);
    transport.write(&inquiry).unwrap();
    assert_eq!(transport.read(&mut buf).unwrap(), 1);
    assert_eq!(buf[0], 3);
    transport.write(&inquiry).unwrap();
    assert_eq!(transport.read(&mut buf).unwrap(), 0);
}

#[test]
fn a_short_buffer_leaves_the_rest_for_later() {
    let mut transport = ReplayTransport::new();
    transport.enqueue_read(&[1, 2, 3]);
    let mut buf = [0u8; 2];
    assert_eq!(transport.read(&mut buf).unwrap(), 2);
    assert!(transport.has_unread());
    assert_eq!(transport.read(&mut buf).unwrap(), 1);
    assert_eq!(buf[0], 3);
}

#[test]
fn a_disconnected_transport_breaks() {
    let mut dongle = VirtualDongle::new("DONGLE_A", "V1");
    assert_eq!(dongle.mac(), "DONGLE_A");
    dongle.disconnect();
    let mut buf = [0u8; 2];
    assert_eq!(
        dongle.replay_transport_mut().read(&mut buf),
        Err(TransportError::BrokenPipe)
    );
    assert_eq!(
        dongle.replay_transport_mut().write(&[1]),
        Err(TransportError::BrokenPipe)
    );
}

#[test]
fn more_delete_replies_can_be_scripted() {
    let mut dongle = VirtualDongle::new("DONGLE_A", "V1");
    dongle.register_extra_delete_responses(2);
    let delete = Packet::new_async(0x25, b"SENSOR01".to_vec()).to_bytes();
    let reply = Packet::new_async(0x26, vec![1]).to_bytes();
    let transport = dongle.replay_transport_mut();
    let mut buf = [0u8; 16];
    for _ in 0..3 {
        transport.write(&delete).unwrap();
        let n = transport.read(&mut buf).unwrap();
        assert_eq!(&buf[..n], &reply[..]);
    }
    transport.write(&delete).unwrap();
    assert_eq!(transport.read(&mut buf).unwrap(), 0);
}
