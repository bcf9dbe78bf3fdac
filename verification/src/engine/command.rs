//! What the host asks of a dongle, and how it reads the answers.
use crate::engine::Engine;
use crate::hex;
use crate::protocol::packet::{commands, CommandType, Packet, PacketPayload, PacketView, PayloadView};
use crate::text;
use vstd::prelude::*;
use vstd::slice::*;
use vstd::string::*;
use vstd::utf8::*;

verus! {

// ---------------------------------------------------------------------------
// Errors
// ---------------------------------------------------------------------------

/// Why an exchange with a dongle did not come to its end.
#[derive(Debug, Copy, Clone, PartialEq, Eq, Structural)]
pub enum EngineError {
    /// A MAC address that is not eight bytes long.
    BadMac,
    InquiryRefused,
    InquiryMismatch,
    EnrMismatch,
    MacNotText,
    MacMismatch,
    VersionNotText,
    VersionMismatch,
    CountEmpty,
    CountMismatch,
    TokenMismatch,
    /// The answer will never come.
    ChannelClosed,
    /// The answer did not come in time.
    TimedOut { cmd: u16, expected: u16 },
}

impl EngineError {
    /// The message for the error.
    pub open spec fn text(self) -> Seq<char> {
        match self {
            EngineError::BadMac => "MAC address must be 8 characters"@,
            EngineError::InquiryRefused => "Inquiry verification failed"@,
            EngineError::InquiryMismatch => "Inquiry response payload mismatch"@,
            EngineError::EnrMismatch => "ENR response must be 16 bytes"@,
            EngineError::MacNotText => "MAC has non-UTF8 bytes"@,
            EngineError::MacMismatch => "MAC response payload mismatch"@,
            EngineError::VersionNotText => "Version string has non-UTF8 bytes"@,
            EngineError::VersionMismatch => "Version response payload mismatch"@,
            EngineError::CountEmpty => "Empty sensor count response"@,
            EngineError::CountMismatch => "Invalid sensor count response payload"@,
            EngineError::TokenMismatch => "Unexpected R1 response type"@,
            EngineError::ChannelClosed => "Oneshot channel closed"@,
            EngineError::TimedOut { cmd, expected } => "Command "@ + hex::word_text(cmd)
                + " timed out waiting for response "@ + hex::word_text(expected),
        }
    }

    /// The message for the error.
    pub fn message(self) -> (r: String)
        ensures
            r@ == self.text(),
    {
        match self {
            EngineError::BadMac => "MAC address must be 8 characters".to_owned(),
            EngineError::InquiryRefused => "Inquiry verification failed".to_owned(),
            EngineError::InquiryMismatch => "Inquiry response payload mismatch".to_owned(),
            EngineError::EnrMismatch => "ENR response must be 16 bytes".to_owned(),
            EngineError::MacNotText => "MAC has non-UTF8 bytes".to_owned(),
            EngineError::MacMismatch => "MAC response payload mismatch".to_owned(),
            EngineError::VersionNotText => "Version string has non-UTF8 bytes".to_owned(),
            EngineError::VersionMismatch => "Version response payload mismatch".to_owned(),
            EngineError::CountEmpty => "Empty sensor count response".to_owned(),
            EngineError::CountMismatch => "Invalid sensor count response payload".to_owned(),
            EngineError::TokenMismatch => "Unexpected R1 response type".to_owned(),
            EngineError::ChannelClosed => "Oneshot channel closed".to_owned(),
            EngineError::TimedOut { cmd, expected } => {
                let mut t = "Command ".to_owned();
                t.append(hex::word_to_hex(cmd).as_str());
                t.append(" timed out waiting for response ");
                t.append(hex::word_to_hex(expected).as_str());
                t
            },
        }
    }
}

// ---------------------------------------------------------------------------
// Requests
// ---------------------------------------------------------------------------

/// A packet to send, and the command word of the packet that answers it.
#[derive(Debug, PartialEq, Eq)]
pub struct Request {
    pub packet: Packet,
    pub expected: u16,
}

/// The model of a request.
pub struct RequestView {
    pub packet: PacketView,
    pub expected: u16,
}

impl View for Request {
    type V = RequestView;

    open spec fn view(&self) -> RequestView {
        RequestView { packet: self.packet@, expected: self.expected }
    }
}

/// How long the answer to a request may take, in milliseconds. A sensor that exchanges
/// tokens is slower than the dongle itself.
pub open spec fn patience(q: RequestView) -> u64 {
    if q.packet.cmd() == commands::CMD_GET_R1 {
        10_000
    } else {
        5_000
    }
}

impl Request {
    /// How long the answer may take, in milliseconds.
    pub fn patience_ms(&self) -> (r: u64)
        ensures
            r == patience(self@),
    {
        if self.packet.cmd() == commands::CMD_GET_R1 {
            10_000
        } else {
            5_000
        }
    }
}

/// The packet of a command: the high byte of the command word is its type.
pub open spec fn packet_of(cmd: u16, payload: Seq<u8>) -> PacketView {
    PacketView {
        cmd_type: if cmd / 256 == 0x43 {
            CommandType::Sync
        } else {
            CommandType::Async
        },
        command_id: (cmd % 256) as u8,
        payload: PayloadView::Bytes(payload),
    }
}

/// A command with the answer that belongs to it.
pub open spec fn request_of(cmd: u16, payload: Seq<u8>, expected: u16) -> RequestView {
    RequestView { packet: packet_of(cmd, payload), expected }
}

fn make_request(cmd: u16, payload: Vec<u8>, expected: u16) -> (r: Request)
    ensures
        r@ == request_of(cmd, payload@, expected),
{
    let id = (cmd % 256) as u8;
    let packet = if cmd / 256 == 0x43 {
        Packet::new_sync(id, payload)
    } else {
        Packet::new_async(id, payload)
    };
    Request { packet, expected }
}

/// A MAC address that a command can carry: eight bytes of text.
pub open spec fn is_mac(mac: Seq<char>) -> bool {
    encode_utf8(mac).len() == 8
}

/// The bytes of a MAC address.
fn mac_bytes(mac: &str) -> (r: Result<Vec<u8>, EngineError>)
    ensures
        match r {
            Ok(b) => is_mac(mac@) && b@ == encode_utf8(mac@),
            Err(e) => !is_mac(mac@) && e == EngineError::BadMac,
        },
{
    let b = mac.as_bytes();
    if b.len() != 8 {
        return Err(EngineError::BadMac);
    }
    Ok(slice_to_vec(b))
}

/// A command on a sensor: its MAC address, and more where the command has it.
pub open spec fn sensor_request(
    cmd: u16,
    mac: Seq<char>,
    more: Seq<u8>,
    expected: u16,
) -> RequestView {
    request_of(cmd, encode_utf8(mac) + more, expected)
}

/// A command on a sensor can be asked exactly of a MAC address.
pub open spec fn asks(r: Result<Request, EngineError>, mac: Seq<char>, q: RequestView) -> bool {
    match r {
        Ok(x) => is_mac(mac) && x@ == q,
        Err(e) => !is_mac(mac) && e == EngineError::BadMac,
    }
}

fn make_sensor_request(cmd: u16, mac: &str, more: &[u8], expected: u16) -> (r: Result<
    Request,
    EngineError,
>)
    ensures
        asks(r, mac@, sensor_request(cmd, mac@, more@, expected)),
{
    match mac_bytes(mac) {
        Ok(b) => {
            let mut payload = b;
            let ghost start = payload@;
            let mut i: usize = 0;
            while i < more.len()
                invariant
                    i <= more@.len(),
                    payload@ == start + more@.subrange(0, i as int),
                decreases more@.len() - i,
            {
                payload.push(more[i]);
                i += 1;
                proof {
                    assert(payload@ =~= start + more@.subrange(0, i as int));
                }
            }
            proof {
                assert(more@.subrange(0, more@.len() as int) =~= more@);
            }
            Ok(make_request(cmd, payload, expected))
        },
        Err(e) => Err(e),
    }
}

/// Asks whether the dongle is there.
pub fn inquiry() -> (r: Request)
    ensures
        r@ == request_of(commands::CMD_INQUIRY, Seq::empty(), commands::CMD_INQUIRY_RESPONSE),
{
    make_request(commands::CMD_INQUIRY, Vec::new(), commands::CMD_INQUIRY_RESPONSE)
}

/// The token of the key exchange: sixteen zeroes, as characters.
pub open spec fn enr_token() -> Seq<u8> {
    Seq::new(16, |i: int| 0x30u8)
}

/// Starts the key exchange.
pub fn get_enr() -> (r: Request)
    ensures
        r@ == request_of(commands::CMD_GET_ENR, enr_token(), commands::CMD_ENR_RESPONSE),
{
    let mut token: Vec<u8> = Vec::new();
    let mut i: usize = 0;
    while i < 16
        invariant
            i <= 16,
            token@.len() == i,
            forall|j: int| 0 <= j < i ==> token@[j] == 0x30,
        decreases 16 - i,
    {
        token.push(0x30);
        i += 1;
    }
    proof {
        assert(token@ =~= enr_token());
    }
    make_request(commands::CMD_GET_ENR, token, commands::CMD_ENR_RESPONSE)
}

/// Asks for the MAC address of the dongle.
pub fn get_mac() -> (r: Request)
    ensures
        r@ == request_of(commands::CMD_GET_MAC, Seq::empty(), commands::CMD_MAC_RESPONSE),
{
    make_request(commands::CMD_GET_MAC, Vec::new(), commands::CMD_MAC_RESPONSE)
}

/// Asks for the firmware version of the dongle.
pub fn get_version() -> (r: Request)
    ensures
        r@ == request_of(commands::CMD_GET_VERSION, Seq::empty(), commands::CMD_VERSION_RESPONSE),
{
    make_request(commands::CMD_GET_VERSION, Vec::new(), commands::CMD_VERSION_RESPONSE)
}

/// Ends the key exchange.
pub fn finish_auth() -> (r: Request)
    ensures
        r@ == request_of(
            commands::CMD_FINISH_AUTH,
            seq![0xFFu8],
            commands::CMD_FINISH_AUTH_RESPONSE,
        ),
{
    let payload = vec![0xFFu8];
    proof {
        assert(payload@ =~= seq![0xFFu8]);
    }
    make_request(commands::CMD_FINISH_AUTH, payload, commands::CMD_FINISH_AUTH_RESPONSE)
}

/// The token that goes to a sensor that is being paired.
pub open spec fn pairing_token() -> Seq<u8> {
    seq![
        0x4F, 0x6B, 0x35, 0x48, 0x50, 0x4E, 0x51, 0x34,
        0x6C, 0x66, 0x37, 0x37, 0x75, 0x37, 0x35, 0x34,
    ]
}

/// The request that turns the search for new sensors on or off.
pub open spec fn scan_request(enable: bool) -> RequestView {
    request_of(
        commands::CMD_SET_SCAN,
        seq![if enable { 1u8 } else { 0u8 }],
        commands::CMD_SET_SCAN_RESPONSE,
    )
}

/// The request that unbinds a sensor.
pub open spec fn delete_request(mac: Seq<char>) -> RequestView {
    request_of(
        commands::CMD_DELETE_SENSOR,
        encode_utf8(mac),
        commands::CMD_DELETE_SENSOR_RESPONSE,
    )
}

/// The request for the number of sensors that are bound.
pub open spec fn count_request() -> RequestView {
    request_of(
        commands::CMD_GET_SENSOR_COUNT,
        Seq::empty(),
        commands::CMD_SENSOR_COUNT_RESPONSE,
    )
}

/// The request for the sensors that are bound.
pub open spec fn list_request(count: u8) -> RequestView {
    request_of(commands::CMD_GET_SENSOR_LIST, seq![count], commands::CMD_GET_SENSOR_LIST)
}

/// The request that rings a chime.
pub open spec fn chime_request(mac: Seq<char>) -> RequestView {
    sensor_request(
        commands::CMD_PLAY_CHIME,
        mac,
        seq![1u8, 1u8, 9u8],
        commands::CMD_PLAY_CHIME_RESPONSE,
    )
}

/// The request for the token of a sensor.
pub open spec fn token_request(mac: Seq<char>) -> RequestView {
    sensor_request(commands::CMD_GET_R1, mac, pairing_token(), commands::CMD_R1_RESPONSE)
}

/// The request that binds a sensor.
pub open spec fn verify_request(mac: Seq<char>) -> RequestView {
    sensor_request(
        commands::CMD_VERIFY_SENSOR,
        mac,
        seq![0xFFu8, 0x04u8],
        commands::CMD_VERIFY_SENSOR_RESPONSE,
    )
}

impl Engine {
    /// Turns the search for new sensors on or off.
    pub fn set_scan(enable: bool) -> (r: Request)
        ensures
            r@ == scan_request(enable),
            r@ == request_of(
                commands::CMD_SET_SCAN,
                seq![if enable { 1u8 } else { 0u8 }],
                commands::CMD_SET_SCAN_RESPONSE,
            ),
    {
        let flag: u8 = if enable {
            1
        } else {
            0
        };
        let payload = vec![flag];
        proof {
            assert(payload@ =~= seq![flag]);
        }
        make_request(commands::CMD_SET_SCAN, payload, commands::CMD_SET_SCAN_RESPONSE)
    }

    /// Exchanges a token with a sensor that is being paired. This comes after the scan that
    /// found it and before it is verified.
    pub fn get_sensor_r1(mac: &str) -> (r: Result<Request, EngineError>)
        ensures
            asks(r, mac@, token_request(mac@)),
            asks(
                r,
                mac@,
                sensor_request(commands::CMD_GET_R1, mac@, pairing_token(), commands::CMD_R1_RESPONSE),
            ),
    {
        let token: [u8; 16] = [
            0x4F, 0x6B, 0x35, 0x48, 0x50, 0x4E, 0x51, 0x34,
            0x6C, 0x66, 0x37, 0x37, 0x75, 0x37, 0x35, 0x34,
        ];
        proof {
            assert(token@ =~= pairing_token());
        }
        make_sensor_request(commands::CMD_GET_R1, mac, token.as_slice(), commands::CMD_R1_RESPONSE)
    }

    /// Binds a sensor to the dongle.
    pub fn verify_sensor(mac: &str) -> (r: Result<Request, EngineError>)
        ensures
            asks(r, mac@, verify_request(mac@)),
            asks(
                r,
                mac@,
                sensor_request(
                    commands::CMD_VERIFY_SENSOR,
                    mac@,
                    seq![0xFFu8, 0x04u8],
                    commands::CMD_VERIFY_SENSOR_RESPONSE,
                ),
            ),
    {
        let more: [u8; 2] = [0xFF, 0x04];
        proof {
            assert(more@ =~= seq![0xFFu8, 0x04u8]);
        }
        make_sensor_request(
            commands::CMD_VERIFY_SENSOR,
            mac,
            more.as_slice(),
            commands::CMD_VERIFY_SENSOR_RESPONSE,
        )
    }

    /// Unbinds a sensor from the dongle.
    pub fn delete_sensor(mac: &str) -> (r: Result<Request, EngineError>)
        ensures
            asks(r, mac@, delete_request(mac@)),
            asks(
                r,
                mac@,
                request_of(
                    commands::CMD_DELETE_SENSOR,
                    encode_utf8(mac@),
                    commands::CMD_DELETE_SENSOR_RESPONSE,
                ),
            ),
    {
        match mac_bytes(mac) {
            Ok(b) => Ok(
                make_request(
                    commands::CMD_DELETE_SENSOR,
                    b,
                    commands::CMD_DELETE_SENSOR_RESPONSE,
                ),
            ),
            Err(e) => Err(e),
        }
    }

    /// Asks how many sensors are bound to the dongle.
    pub fn get_sensor_count() -> (r: Request)
        ensures
            r@ == count_request(),
            r@ == request_of(
                commands::CMD_GET_SENSOR_COUNT,
                Seq::empty(),
                commands::CMD_SENSOR_COUNT_RESPONSE,
            ),
    {
        make_request(
            commands::CMD_GET_SENSOR_COUNT,
            Vec::new(),
            commands::CMD_SENSOR_COUNT_RESPONSE,
        )
    }

    /// Asks for the sensors that are bound to the dongle. The dongle acknowledges the
    /// command itself and then sends one packet for each sensor.
    pub fn get_sensor_list(count: u8) -> (r: Request)
        ensures
            r@ == list_request(count),
            r@ == request_of(
                commands::CMD_GET_SENSOR_LIST,
                seq![count],
                commands::CMD_GET_SENSOR_LIST,
            ),
    {
        let payload = vec![count];
        proof {
            assert(payload@ =~= seq![count]);
        }
        make_request(commands::CMD_GET_SENSOR_LIST, payload, commands::CMD_GET_SENSOR_LIST)
    }

    /// Rings a chime: ring 1, once, at the highest volume.
    pub fn play_chime(mac: &str) -> (r: Result<Request, EngineError>)
        ensures
            asks(r, mac@, chime_request(mac@)),
            asks(
                r,
                mac@,
                sensor_request(
                    commands::CMD_PLAY_CHIME,
                    mac@,
                    seq![1u8, 1u8, 9u8],
                    commands::CMD_PLAY_CHIME_RESPONSE,
                ),
            ),
    {
        let more: [u8; 3] = [1, 1, 9];
        proof {
            assert(more@ =~= seq![1u8, 1u8, 9u8]);
        }
        make_sensor_request(
            commands::CMD_PLAY_CHIME,
            mac,
            more.as_slice(),
            commands::CMD_PLAY_CHIME_RESPONSE,
        )
    }
}

// ---------------------------------------------------------------------------
// Answers
// ---------------------------------------------------------------------------

/// What the answer to an inquiry says: the dongle is there if it holds a one and nothing
/// else.
pub open spec fn inquiry_result(p: PacketView) -> Result<(), EngineError> {
    match p.payload {
        PayloadView::Ack(_) => Err(EngineError::InquiryMismatch),
        PayloadView::Bytes(b) => if b == seq![1u8] {
            Ok(())
        } else {
            Err(EngineError::InquiryRefused)
        },
    }
}

pub fn read_inquiry(p: &Packet) -> (r: Result<(), EngineError>)
    ensures
        r == inquiry_result(p@),
{
    match &p.payload {
        PacketPayload::Ack(_) => Err(EngineError::InquiryMismatch),
        PacketPayload::Bytes(b) => if b.len() == 1 && b[0] == 1 {
            proof {
                assert(b@ =~= seq![1u8]);
            }
            Ok(())
        } else {
            Err(EngineError::InquiryRefused)
        },
    }
}

/// What the answer to the key exchange says: it goes on if the answer holds sixteen bytes.
pub open spec fn enr_result(p: PacketView) -> Result<(), EngineError> {
    match p.payload {
        PayloadView::Bytes(b) => if b.len() == 16 {
            Ok(())
        } else {
            Err(EngineError::EnrMismatch)
        },
        PayloadView::Ack(_) => Err(EngineError::EnrMismatch),
    }
}

pub fn read_enr(p: &Packet) -> (r: Result<(), EngineError>)
    ensures
        r == enr_result(p@),
{
    match &p.payload {
        PacketPayload::Bytes(b) => if b.len() == 16 {
            Ok(())
        } else {
            Err(EngineError::EnrMismatch)
        },
        PacketPayload::Ack(_) => Err(EngineError::EnrMismatch),
    }
}

/// The text that a packet carries.
pub open spec fn text_result(
    p: PacketView,
    not_text: EngineError,
    mismatch: EngineError,
) -> Result<Seq<char>, EngineError> {
    match p.payload {
        PayloadView::Ack(_) => Err(mismatch),
        PayloadView::Bytes(b) => if valid_utf8(b) {
            Ok(decode_utf8(b))
        } else {
            Err(not_text)
        },
    }
}

fn read_text(p: &Packet, not_text: EngineError, mismatch: EngineError) -> (r: Result<
    String,
    EngineError,
>)
    ensures
        match r {
            Ok(s) => text_result(p@, not_text, mismatch) == Ok::<Seq<char>, EngineError>(s@),
            Err(e) => text_result(p@, not_text, mismatch) == Err::<Seq<char>, EngineError>(e),
        },
{
    match &p.payload {
        PacketPayload::Ack(_) => Err(mismatch),
        PacketPayload::Bytes(b) => match text::from_utf8(slice_to_vec(b.as_slice())) {
            Some(s) => Ok(s),
            None => Err(not_text),
        },
    }
}

/// The MAC address of the dongle.
pub open spec fn mac_result(p: PacketView) -> Result<Seq<char>, EngineError> {
    text_result(p, EngineError::MacNotText, EngineError::MacMismatch)
}

pub fn read_mac(p: &Packet) -> (r: Result<String, EngineError>)
    ensures
        match r {
            Ok(s) => mac_result(p@) == Ok::<Seq<char>, EngineError>(s@),
            Err(e) => mac_result(p@) == Err::<Seq<char>, EngineError>(e),
        },
{
    read_text(p, EngineError::MacNotText, EngineError::MacMismatch)
}

/// The firmware version of the dongle.
pub open spec fn version_result(p: PacketView) -> Result<Seq<char>, EngineError> {
    text_result(p, EngineError::VersionNotText, EngineError::VersionMismatch)
}

pub fn read_version(p: &Packet) -> (r: Result<String, EngineError>)
    ensures
        match r {
            Ok(s) => version_result(p@) == Ok::<Seq<char>, EngineError>(s@),
            Err(e) => version_result(p@) == Err::<Seq<char>, EngineError>(e),
        },
{
    read_text(p, EngineError::VersionNotText, EngineError::VersionMismatch)
}

/// The number of sensors that are bound to the dongle.
pub open spec fn count_result(p: PacketView) -> Result<u8, EngineError> {
    match p.payload {
        PayloadView::Ack(_) => Err(EngineError::CountMismatch),
        PayloadView::Bytes(b) => if b.len() == 0 {
            Err(EngineError::CountEmpty)
        } else {
            Ok(b[0])
        },
    }
}

pub fn read_count(p: &Packet) -> (r: Result<u8, EngineError>)
    ensures
        r == count_result(p@),
{
    match &p.payload {
        PacketPayload::Ack(_) => Err(EngineError::CountMismatch),
        PacketPayload::Bytes(b) => if b.len() == 0 {
            Err(EngineError::CountEmpty)
        } else {
            Ok(b[0])
        },
    }
}

/// The token that a sensor answers with.
pub open spec fn token_result(p: PacketView) -> Result<Seq<u8>, EngineError> {
    match p.payload {
        PayloadView::Ack(_) => Err(EngineError::TokenMismatch),
        PayloadView::Bytes(b) => Ok(b),
    }
}

pub fn read_token(p: &Packet) -> (r: Result<Vec<u8>, EngineError>)
    ensures
        match r {
            Ok(b) => token_result(p@) == Ok::<Seq<u8>, EngineError>(b@),
            Err(e) => token_result(p@) == Err::<Seq<u8>, EngineError>(e),
        },
{
    match &p.payload {
        PacketPayload::Ack(_) => Err(EngineError::TokenMismatch),
        PacketPayload::Bytes(b) => Ok(slice_to_vec(b.as_slice())),
    }
}

// ---------------------------------------------------------------------------
// Laws
// ---------------------------------------------------------------------------

/// A request goes out under its own command word, in a packet that the wire can carry
/// and that comes back from it.
pub proof fn law_request_is_sent_as_it_is(cmd: u16, payload: Seq<u8>, rest: Seq<u8>)
    requires
        cmd / 256 == 0x43 || cmd / 256 == 0x53,
        cmd != commands::CMD_ASYNC_ACK,
        payload.len() <= 252,
    ensures
        packet_of(cmd, payload).cmd() == cmd,
        packet_of(cmd, payload).representable(),
        crate::protocol::packet::parse_result(packet_of(cmd, payload).wire() + rest) == Ok::<
            (PacketView, int),
            crate::protocol::packet::ParseError,
        >((packet_of(cmd, payload), packet_of(cmd, payload).wire().len() as int)),
{
    assert(cmd / 256 * 256 + cmd % 256 == cmd);
    crate::protocol::packet::law_parse_of_wire(packet_of(cmd, payload), rest);
}

/// The answer to a command has the command word that follows the command's own.
pub proof fn law_answer_follows_command()
    ensures
        commands::CMD_INQUIRY_RESPONSE == commands::CMD_INQUIRY + 1,
        commands::CMD_ENR_RESPONSE == commands::CMD_GET_ENR + 1,
        commands::CMD_MAC_RESPONSE == commands::CMD_GET_MAC + 1,
        commands::CMD_VERSION_RESPONSE == commands::CMD_GET_VERSION + 1,
        commands::CMD_FINISH_AUTH_RESPONSE == commands::CMD_FINISH_AUTH + 1,
        commands::CMD_SET_SCAN_RESPONSE == commands::CMD_SET_SCAN + 1,
        commands::CMD_R1_RESPONSE == commands::CMD_GET_R1 + 1,
        commands::CMD_VERIFY_SENSOR_RESPONSE == commands::CMD_VERIFY_SENSOR + 1,
        commands::CMD_DELETE_SENSOR_RESPONSE == commands::CMD_DELETE_SENSOR + 1,
        commands::CMD_SENSOR_COUNT_RESPONSE == commands::CMD_GET_SENSOR_COUNT + 1,
        commands::CMD_TIME_SYNC_RESPONSE == commands::CMD_TIME_SYNC + 1,
        commands::CMD_PLAY_CHIME_RESPONSE == commands::CMD_PLAY_CHIME + 1,
{
}

/// A request that goes out under an async command: its id, its payload, and the command word
/// of its answer.
pub open spec fn goes_out(q: RequestView, id: u8, payload: Seq<u8>, expected: u16) -> bool {
    &&& q.packet.cmd_type is Async
    &&& q.packet.command_id == id
    &&& q.packet.payload == PayloadView::Bytes(payload)
    &&& q.expected == expected
}

/// What is asked of a dongle, as it stands on the wire: to search (1) or to end the search
/// (0), how many sensors it has and which they are.
pub proof fn law_requests_to_the_dongle(enable: bool, count: u8)
    ensures
        enable ==> goes_out(scan_request(enable), 0x1C, seq![1u8], 0x531D),
        !enable ==> goes_out(scan_request(enable), 0x1C, seq![0u8], 0x531D),
        goes_out(count_request(), 0x2E, Seq::empty(), 0x532F),
        goes_out(list_request(count), 0x30, seq![count], 0x5330),
{
}

/// What is asked of a sensor, as it stands on the wire: always its address first, then what
/// the request needs. Ringing a chime names the ring, how often and how loud; the token is
/// sixteen characters of text.
pub proof fn law_requests_on_a_sensor(mac: Seq<char>)
    ensures
        goes_out(delete_request(mac), 0x25, encode_utf8(mac), 0x5326),
        goes_out(chime_request(mac), 0x70, encode_utf8(mac) + seq![1u8, 1u8, 9u8], 0x5371),
        goes_out(verify_request(mac), 0x23, encode_utf8(mac) + seq![0xFFu8, 0x04u8], 0x5324),
        goes_out(token_request(mac), 0x21, encode_utf8(mac) + pairing_token(), 0x5322),
        pairing_token() == "Ok5HPNQ4lf77u754"@.map_values(|c: char| c as u8),
{
    reveal_strlit("Ok5HPNQ4lf77u754");
    assert(pairing_token() =~= "Ok5HPNQ4lf77u754"@.map_values(|c: char| c as u8));
}

/// A request on a sensor is made of an address of eight bytes, and of no other.
pub proof fn law_only_an_address_can_be_asked(
    r: Result<Request, EngineError>,
    mac: Seq<char>,
    q: RequestView,
)
    requires
        asks(r, mac, q),
    ensures
        r is Ok <==> encode_utf8(mac).len() == 8,
        r is Ok ==> r->Ok_0@ == q,
        r is Err ==> r->Err_0 == EngineError::BadMac,
{
}

/// A sensor that exchanges tokens gets ten seconds, everything else five.
pub proof fn law_patience(mac: Seq<char>, enable: bool, count: u8)
    ensures
        patience(token_request(mac)) == 10_000,
        patience(verify_request(mac)) == 5_000,
        patience(delete_request(mac)) == 5_000,
        patience(chime_request(mac)) == 5_000,
        patience(scan_request(enable)) == 5_000,
        patience(count_request()) == 5_000,
        patience(list_request(count)) == 5_000,
{
}

/// How answers are read. An acknowledgement answers nothing; a dongle is there if it says
/// one and nothing else; the key exchange goes on with sixteen bytes; an address or a version
/// is the text of the answer; the number of sensors is the first byte; a token is the whole
/// answer.
pub proof fn law_answers_are_read(p: PacketView)
    ensures
        inquiry_result(p) is Ok <==> p.payload == PayloadView::Bytes(seq![1u8]),
        enr_result(p) is Ok <==> p.payload is Bytes && p.payload->Bytes_0.len() == 16,
        mac_result(p) is Ok <==> p.payload is Bytes && valid_utf8(p.payload->Bytes_0),
        mac_result(p) is Ok ==> encode_utf8(mac_result(p)->Ok_0) == p.payload->Bytes_0,
        version_result(p) is Ok <==> p.payload is Bytes && valid_utf8(p.payload->Bytes_0),
        version_result(p) is Ok ==> encode_utf8(version_result(p)->Ok_0) == p.payload->Bytes_0,
        count_result(p) is Ok <==> p.payload is Bytes && p.payload->Bytes_0.len() > 0,
        count_result(p) is Ok ==> count_result(p)->Ok_0 == p.payload->Bytes_0[0],
        token_result(p) is Ok <==> p.payload is Bytes,
        token_result(p) is Ok ==> token_result(p)->Ok_0 == p.payload->Bytes_0,
{
    if p.payload is Bytes && valid_utf8(p.payload->Bytes_0) {
        decode_utf8_encode_utf8(p.payload->Bytes_0);
    }
}

/// Why an answer is refused: what is acknowledged instead of answered is told apart from
/// what is answered wrongly.
pub proof fn law_refused_answers(p: PacketView)
    ensures
        p.payload is Ack ==> {
            &&& inquiry_result(p) == Err::<(), EngineError>(EngineError::InquiryMismatch)
            &&& enr_result(p) == Err::<(), EngineError>(EngineError::EnrMismatch)
            &&& mac_result(p) == Err::<Seq<char>, EngineError>(EngineError::MacMismatch)
            &&& version_result(p) == Err::<Seq<char>, EngineError>(EngineError::VersionMismatch)
            &&& count_result(p) == Err::<u8, EngineError>(EngineError::CountMismatch)
            &&& token_result(p) == Err::<Seq<u8>, EngineError>(EngineError::TokenMismatch)
        },
        p.payload is Bytes ==> {
            &&& inquiry_result(p) is Err ==> inquiry_result(p)->Err_0
                == EngineError::InquiryRefused
            &&& enr_result(p) is Err ==> enr_result(p)->Err_0 == EngineError::EnrMismatch
            &&& mac_result(p) is Err ==> mac_result(p)->Err_0 == EngineError::MacNotText
            &&& version_result(p) is Err ==> version_result(p)->Err_0
                == EngineError::VersionNotText
            &&& count_result(p) is Err ==> count_result(p)->Err_0 == EngineError::CountEmpty
        },
{
}

} // verus!
