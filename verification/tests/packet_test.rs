//! Packets on the wire.
use wyzesense2mqtt_rs::protocol::packet::{
    commands, CommandType, Packet, PacketPayload, ParseError,
};
use wyzesense2mqtt_rs::protocol::stream::{find_magic, next_packet, receive};

#[test]
fn test_checksum() {
    let data = [0xAA, 0x55, 0x43, 0x03, 0x27];
    assert_eq!(Packet::calculate_checksum(&data), 0x016C);
}

#[test]
fn test_serialize_inquiry() {
    let pkt = Packet::new_sync(0x27, vec![]);
    let bytes = pkt.to_bytes();
    assert_eq!(bytes, vec![0xAA, 0x55, 0x43, 0x03, 0x27, 0x01, 0x6C]);
}

#[test]
fn test_parse_inquiry() {
    let bytes = [0xAA, 0x55, 0x43, 0x03, 0x27, 0x01, 0x6C];
    let (pkt, len) = Packet::parse(&bytes).unwrap();
    assert_eq!(len, 7);
    assert_eq!(pkt.cmd_type, CommandType::Sync);
    assert_eq!(pkt.command_id, 0x27);
    assert_eq!(pkt.payload, PacketPayload::Bytes(vec![]));
}

#[test]
fn test_parse_inquiry_response() {
    // Magic: 55 AA, Type: 43, Length: 04, Cmd: 28, Payload: 01, Checksum: 01 6F
    let bytes = [0x55, 0xAA, 0x43, 0x04, 0x28, 0x01, 0x01, 0x6F];
    let (pkt, len) = Packet::parse(&bytes).unwrap();
    assert_eq!(len, 8);
    assert_eq!(pkt.cmd_type, CommandType::Sync);
    assert_eq!(pkt.command_id, 0x28);
    assert_eq!(pkt.payload, PacketPayload::Bytes(vec![0x01]));

    // Test round-trip
    assert_eq!(pkt.to_bytes(), vec![0xAA, 0x55, 0x43, 0x04, 0x28, 0x01, 0x01, 0x6F]);
}

#[test]
fn test_parse_ack() {
    // Magic: 55 AA, Type: 53, b2: 27, Cmd: FF, Checksum: 02 78 (0x55+0xAA+0x53+0x27+0xFF = 632 = 0x0278)
    let bytes = [0x55, 0xAA, 0x53, 0x27, 0xFF, 0x02, 0x78];
    let (pkt, len) = Packet::parse(&bytes).unwrap();
    assert_eq!(len, 7);
    assert_eq!(pkt.cmd_type, CommandType::Async);
    assert_eq!(pkt.command_id, 0xFF);
    assert_eq!(pkt.payload, PacketPayload::Ack(0x5327));

    // Round trip serialization
    assert_eq!(pkt.to_bytes(), vec![0xAA, 0x55, 0x53, 0x27, 0xFF, 0x02, 0x78]);
}

#[test]
fn every_parse_error_has_its_input() {
    let cases: Vec<(Vec<u8>, ParseError, &str)> = vec![
        (vec![0x55, 0xAA, 0x43], ParseError::HeaderTooShort, "Buffer too short for header"),
        (
            vec![0x12, 0x34, 0x43, 0x03, 0x27, 0x01, 0x6C],
            ParseError::BadMagic,
            "Invalid packet magic prefix",
        ),
        (
            vec![0xAA, 0x55, 0x44, 0x03, 0x27, 0x01, 0x6C],
            ParseError::BadCommandType,
            "Invalid CommandType byte",
        ),
        (
            vec![0x55, 0xAA, 0x53, 0x27, 0xFF, 0x02],
            ParseError::AckTooShort,
            "Buffer too short for ACK packet",
        ),
        (
            vec![0x55, 0xAA, 0x53, 0x27, 0xFF, 0x02, 0x79],
            ParseError::AckChecksum,
            "Mismatched checksum in ACK packet",
        ),
        (
            vec![0xAA, 0x55, 0x43, 0x05, 0x27, 0x01, 0x6C],
            ParseError::PacketTooShort,
            "Buffer too short for expected packet length",
        ),
        (
            vec![0xAA, 0x55, 0x43, 0x03, 0x27, 0x01, 0x6D],
            ParseError::PacketChecksum,
            "Mismatched checksum in packet",
        ),
        (
            vec![0x55, 0xAA, 0x43, 0x01, 0x42],
            ParseError::BadLength,
            "Invalid packet length",
        ),
    ];
    for (bytes, error, message) in cases {
        assert_eq!(Packet::decode(&bytes).unwrap_err(), error);
        assert_eq!(Packet::parse(&bytes).unwrap_err(), message);
        assert_eq!(error.message(), message);
        assert_eq!(error.is_incomplete(), message.contains("too short"));
    }
}

#[test]
fn packet_comes_back_from_its_bytes() {
    for n in [0usize, 1, 8, 64, 252] {
        let payload: Vec<u8> = (0..n).map(|i| (i * 7 % 256) as u8).collect();
        let pkt = Packet::new_async(0x19, payload);
        let bytes = pkt.to_bytes();
        assert_eq!(bytes.len(), n + 7);
        let (back, len) = Packet::parse(&bytes).unwrap();
        assert_eq!(len, bytes.len());
        assert_eq!(back, pkt);
    }
}

#[test]
fn command_words_and_descriptions() {
    let pkt = Packet::new_sync(0x28, vec![0x01, 0xFE]);
    assert_eq!(pkt.cmd(), commands::CMD_INQUIRY_RESPONSE);
    assert_eq!(pkt.payload_bytes(), Some(&[0x01u8, 0xFE][..]));
    assert_eq!(pkt.describe(), "Packet: Cmd=4328, Payload=[01,fe]");
    assert_eq!(Packet::new_sync(0x27, vec![]).describe(), "Packet: Cmd=4327, Payload=[<None>]");
    let ack = Packet::new_ack(0x5332);
    assert_eq!(ack.cmd(), Packet::ASYNC_ACK);
    assert_eq!(ack.payload_bytes(), None);
    assert_eq!(ack.describe(), "Packet: Cmd=53FF, Payload=ACK(5332)");
    assert_eq!(CommandType::try_from(0x43u8), Ok(CommandType::Sync));
    assert_eq!(CommandType::try_from(0x53u8), Ok(CommandType::Async));
    assert_eq!(CommandType::try_from(0x00u8), Err("Invalid CommandType byte"));
    assert_eq!(CommandType::Async.to_byte(), 0x53);
}

#[test]
fn a_length_below_the_header_is_no_packet() {
    for bytes in [
        vec![0x55, 0xAA, 0x43, 0x01, 0x42],
        vec![0xAA, 0x55, 0x43, 0x02, 0x01, 0x44],
        vec![0xAA, 0x55, 0x43, 0x02, 0x01, 0x45],
    ] {
        assert!(Packet::parse(&bytes).is_err());
    }
    assert_eq!(
        Packet::decode(&[0xAA, 0x55, 0x43, 0x02, 0x01, 0x44]),
        Err(ParseError::BadLength)
    );
    let next = Packet::new_async(0x17, vec![0x41]).to_bytes();
    let mut read = vec![0x55, 0xAA, 0x43, 0x01, 0x42];
    read.extend_from_slice(&next);
    let mut buffer: Vec<u8> = Vec::new();
    let packets = receive(&mut buffer, &read);
    assert_eq!(packets.len(), 1);
    assert_eq!(packets[0].cmd(), 0x5317);
    assert!(buffer.is_empty());
}

#[test]
fn packets_are_found_behind_junk() {
    let a = Packet::new_sync(0x28, vec![0x01]).to_bytes();
    let b = Packet::new_async(0x17, vec![0x41]).to_bytes();
    let mut buffer: Vec<u8> = vec![0x00, 0x55, 0x13];
    buffer.extend_from_slice(&a);
    buffer.extend_from_slice(&b);
    assert_eq!(find_magic(&buffer), Some(3));
    assert_eq!(next_packet(&mut buffer).unwrap().cmd(), 0x4328);
    assert_eq!(next_packet(&mut buffer).unwrap().cmd(), 0x5317);
    assert!(next_packet(&mut buffer).is_none());
    assert!(buffer.is_empty());
    assert_eq!(find_magic(&[0x01, 0x02]), None);
}

#[test]
fn a_broken_packet_does_not_hide_the_next() {
    let mut broken = Packet::new_sync(0x28, vec![0x01]).to_bytes();
    let last = broken.len() - 1;
    broken[last] ^= 0x01;
    let mut buffer: Vec<u8> = Vec::new();
    let mut read = broken;
    read.extend_from_slice(&Packet::new_async(0x17, vec![0x41]).to_bytes());
    let packets = receive(&mut buffer, &read);
    assert_eq!(packets.len(), 1);
    assert_eq!(packets[0].cmd(), 0x5317);
}

#[test]
fn two_reads_give_what_one_read_gives() {
    let mut all = Packet::new_sync(0x28, vec![0x01]).to_bytes();
    all.extend_from_slice(&Packet::new_ack(0x5332).to_bytes());
    all.extend_from_slice(&Packet::new_async(0x19, vec![9; 20]).to_bytes());
    let mut whole: Vec<u8> = Vec::new();
    let expected = receive(&mut whole, &all);
    assert_eq!(expected.len(), 3);
    for cut in 0..=all.len() {
        let mut buffer: Vec<u8> = Vec::new();
        let mut got = receive(&mut buffer, &all[..cut]);
        got.append(&mut receive(&mut buffer, &all[cut..]));
        assert_eq!(got, expected, "cut at {}", cut);
        assert!(buffer.is_empty());
    }
}
