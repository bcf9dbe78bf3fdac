//! Frames of the USB device.
use wyzesense2mqtt_rs::transport::hidraw::{
    discover_all_dongle_devices, discover_dongle_device, extract_hid_frame,
};

#[test]
fn test_hid_frame_short_packet_discards_stale_data() {
    let mut raw = vec![
        0x08, 
        0x55, 0xAA, 0x43, 0x04, 0x28, 0x01, 0x01, 0x6F,
    ];
    raw.extend_from_slice(&[0xDE, 0xAD, 0xBE, 0xEF, 0x37, 0x37, 0x43, 0x36,
                             0x38, 0x31, 0x39, 0x33, 0x07, 0x15, 0x5F, 0x00,
                             0x03, 0x15, 0x2E, 0x30, 0x11, 0x36, 0x26, 0x08,
                             0x87, 0x55, 0xAA, 0x53, 0x1F, 0x19, 0x00, 0x00,
                             0x01, 0x9E, 0x6C, 0x1F, 0x8D, 0xFE, 0xE8, 0x37,
                             0x37, 0x43, 0x36, 0x38, 0x31, 0x39, 0x33, 0x07,
                             0x18, 0x5F, 0x00, 0x03, 0x18, 0x06, 0x30]);

    let mut output = [0u8; 128];
    let n = extract_hid_frame(&raw, &mut output);

    assert_eq!(n, 8);
    assert_eq!(&output[..8], &[0x55, 0xAA, 0x43, 0x04, 0x28, 0x01, 0x01, 0x6F]);
}

#[test]
fn test_hid_frame_full_frame_multi_packet() {
    let mut raw = vec![0x3E]; 
    raw.extend_from_slice(&[0x55, 0xAA, 0x43, 0x04, 0x28, 0x01, 0x01, 0x6F]);
    raw.extend_from_slice(&[0x55, 0xAA, 0x53, 0x1F, 0x19, 0x00, 0x00, 0x01,
                             0x9E, 0x68, 0xB1, 0x59, 0xEA, 0xE8, 0x37, 0x37,
                             0x43, 0x36, 0x38, 0x31, 0x39, 0x33, 0x07, 0x15,
                             0x5F, 0x00, 0x03, 0x15, 0x2E, 0x30, 0x11, 0x36,
                             0x26, 0x08, 0x87]);
    while raw.len() < 63 { 
        raw.push(0x00);
    }

    let mut output = [0u8; 128];
    let n = extract_hid_frame(&raw, &mut output);

    assert_eq!(n, 62);
    assert_eq!(&output[..2], &[0x55, 0xAA]);
    assert_eq!(&output[8..10], &[0x55, 0xAA]);
}

#[test]
fn test_hid_frame_enr_response_length_0x17() {
    let raw = vec![
        0x17,
        0x55, 0xAA, 0x43, 0x13, 0x03,
        0x55, 0xFF, 0xEB, 0x67, 0xD8, 0xC5, 0xF8, 0x70,
        0xB9, 0x43, 0xB0, 0x21, 0xCC, 0x02, 0x3E, 0xEC,
        0x0A, 0xC8,
        0xDE, 0xAD, 0xBE, 0xEF, 0x00, 0x00, 0x00, 0x00,
    ];

    let mut output = [0u8; 128];
    let n = extract_hid_frame(&raw, &mut output);

    assert_eq!(n, 23);
    assert_eq!(&output[..5], &[0x55, 0xAA, 0x43, 0x13, 0x03]);
    assert_eq!(&output[21..23], &[0x0A, 0xC8]);
}

#[test]
fn test_hid_frame_mac_response_length_0x0f() {
    let raw = vec![
        0x0F,
        0x55, 0xAA, 0x43, 0x0B, 0x05,
        0x37, 0x37, 0x41, 0x38, 0x35, 0x41, 0x33, 0x36,
        0x03, 0x18,
        0xB0, 0x21, 0xCC, 0x02, 0x3E, 0xEC,
    ];

    let mut output = [0u8; 128];
    let n = extract_hid_frame(&raw, &mut output);

    assert_eq!(n, 15);
    let mac_bytes = &output[5..13];
    assert_eq!(std::str::from_utf8(mac_bytes).unwrap(), "77A85A36");
}

#[test]
fn test_hid_frame_magic_byte_passthrough() {
    let raw = vec![0x55, 0xAA, 0x43, 0x04, 0x28, 0x01, 0x01, 0x6F];

    let mut output = [0u8; 128];
    let n = extract_hid_frame(&raw, &mut output);

    assert_eq!(n, 8);
    assert_eq!(&output[..8], &raw);
}

#[test]
fn test_hid_frame_magic_0xaa_passthrough() {
    let raw = vec![0xAA, 0x55, 0x43, 0x03, 0x27, 0x01, 0x6C];

    let mut output = [0u8; 128];
    let n = extract_hid_frame(&raw, &mut output);

    assert_eq!(n, 7);
    assert_eq!(&output[..7], &raw);
}

#[test]
fn test_hid_frame_length_clamped_to_0x3f() {
    let mut raw = vec![0x7F];
    raw.extend_from_slice(&[0xAB; 70]);

    let mut output = [0u8; 128];
    let n = extract_hid_frame(&raw, &mut output);

    assert_eq!(n, 63);
}

#[test]
fn test_hid_frame_empty_input() {
    let raw: Vec<u8> = vec![];
    let mut output = [0u8; 128];
    let n = extract_hid_frame(&raw, &mut output);
    assert_eq!(n, 0);
}

#[test]
fn test_hid_frame_length_zero() {
    let raw = vec![0x00, 0xDE, 0xAD, 0xBE, 0xEF];
    let mut output = [0u8; 128];
    let n = extract_hid_frame(&raw, &mut output);
    assert_eq!(n, 0);
}

#[test]
fn test_hid_frame_length_exceeds_available() {
    let raw = vec![0x14, 0x55, 0xAA, 0x43, 0x03, 0x27];
    let mut output = [0u8; 128];
    let n = extract_hid_frame(&raw, &mut output);
    assert_eq!(n, 5);
    assert_eq!(&output[..5], &[0x55, 0xAA, 0x43, 0x03, 0x27]);
}

#[test]
fn dongle_is_found_by_its_link() {
    let entries = vec![
        ("hidraw0".to_string(), "../../devices/0003:046D:C52B.0001/hidraw".to_string()),
        ("hidraw3".to_string(), "../../devices/0003:1A86:E024.0004/hidraw/hidraw3".to_string()),
        ("hidraw4".to_string(), "../../devices/0003:1A86:E024.0005/hidraw/hidraw4".to_string()),
    ];
    assert_eq!(discover_dongle_device(&entries), Some("/dev/hidraw3".to_string()));
    assert_eq!(
        discover_all_dongle_devices(&entries),
        vec!["/dev/hidraw3".to_string(), "/dev/hidraw4".to_string()]
    );
    assert!(discover_all_dongle_devices(&entries[..1]).is_empty());
    assert_eq!(discover_dongle_device(&entries[..1]), None);
    assert_eq!(discover_dongle_device(&[]), None);
    let split = vec![("hidraw1".to_string(), "usb/1a86/port/e024".to_string())];
    assert_eq!(discover_dongle_device(&split), Some("/dev/hidraw1".to_string()));
}

#[test]
fn frame_is_cut_to_the_room_there_is() {
    let raw = vec![0x08, 1, 2, 3, 4, 5, 6, 7, 8];
    let mut output = [0u8; 4];
    assert_eq!(extract_hid_frame(&raw, &mut output), 4);
    assert_eq!(output, [1, 2, 3, 4]);
}
