//! Packets: framing, checksum, and the way to and from bytes.
//!
//! A packet on the wire is two magic bytes, the command type, one byte `b2`, the
//! command id, the payload, and a 16-bit checksum over everything before it. For
//! an ordinary packet `b2` counts the payload plus three; for an acknowledgement
//! it is the low byte of the command that is acknowledged.
pub mod commands;

use crate::hex;
use vstd::prelude::*;
use vstd::slice::*;
use vstd::string::*;

verus! {

// ---------------------------------------------------------------------------
// Types
// ---------------------------------------------------------------------------

/// Who starts an exchange: the host (sync) or either side (async).
#[derive(Debug, Copy, Clone, PartialEq, Eq, Structural)]
pub enum CommandType {
    Sync,
    Async,
}

impl CommandType {
    /// The byte that stands for the type on the wire.
    pub open spec fn code(self) -> u8 {
        match self {
            CommandType::Sync => 0x43,
            CommandType::Async => 0x53,
        }
    }

    /// The byte that stands for the type on the wire.
    pub fn to_byte(self) -> (r: u8)
        ensures
            r == self.code(),
    {
        match self {
            CommandType::Sync => 0x43,
            CommandType::Async => 0x53,
        }
    }

    /// The type that a byte stands for.
    pub open spec fn of_code(b: u8) -> Option<CommandType> {
        if b == 0x43 {
            Some(CommandType::Sync)
        } else if b == 0x53 {
            Some(CommandType::Async)
        } else {
            None
        }
    }
}

impl TryFrom<u8> for CommandType {
    type Error = &'static str;

    fn try_from(value: u8) -> (r: Result<Self, &'static str>) {
        match value {
            0x43 => Ok(CommandType::Sync),
            0x53 => Ok(CommandType::Async),
            _ => Err("Invalid CommandType byte"),
        }
    }
}

impl vstd::std_specs::convert::TryFromSpecImpl<u8> for CommandType {
    open spec fn obeys_try_from_spec() -> bool {
        true
    }

    open spec fn try_from_spec(value: u8) -> Result<Self, &'static str> {
        match CommandType::of_code(value) {
            Some(t) => Ok(t),
            None => Err("Invalid CommandType byte"),
        }
    }
}

/// What a packet carries.
#[derive(Debug, PartialEq, Eq)]
pub enum PacketPayload {
    /// The command word that is acknowledged.
    Ack(u16),
    /// Raw payload bytes.
    Bytes(Vec<u8>),
}

/// The model of a payload.
pub enum PayloadView {
    Ack(u16),
    Bytes(Seq<u8>),
}

impl View for PacketPayload {
    type V = PayloadView;

    open spec fn view(&self) -> PayloadView {
        match self {
            PacketPayload::Ack(a) => PayloadView::Ack(*a),
            PacketPayload::Bytes(b) => PayloadView::Bytes(b@),
        }
    }
}

impl Clone for PacketPayload {
    fn clone(&self) -> (r: Self)
        ensures
            r@ == self@,
    {
        match self {
            PacketPayload::Ack(a) => PacketPayload::Ack(*a),
            PacketPayload::Bytes(b) => PacketPayload::Bytes(slice_to_vec(b.as_slice())),
        }
    }
}

/// A packet of the dongle protocol.
#[derive(Debug, PartialEq, Eq)]
pub struct Packet {
    pub cmd_type: CommandType,
    pub command_id: u8,
    pub payload: PacketPayload,
}

/// The model of a packet.
pub struct PacketView {
    pub cmd_type: CommandType,
    pub command_id: u8,
    pub payload: PayloadView,
}

impl View for Packet {
    type V = PacketView;

    open spec fn view(&self) -> PacketView {
        PacketView {
            cmd_type: self.cmd_type,
            command_id: self.command_id,
            payload: self.payload@,
        }
    }
}

impl Clone for Packet {
    fn clone(&self) -> (r: Self)
        ensures
            r@ == self@,
    {
        Packet {
            cmd_type: self.cmd_type,
            command_id: self.command_id,
            payload: self.payload.clone(),
        }
    }
}

// ---------------------------------------------------------------------------
// Checksum
// ---------------------------------------------------------------------------

/// The sum of the bytes.
pub open spec fn byte_sum(s: Seq<u8>) -> nat
    decreases s.len(),
{
    if s.len() == 0 {
        0
    } else {
        byte_sum(s.drop_last()) + s.last() as nat
    }
}

/// The 16-bit checksum: the sum of the bytes, modulo 65536.
pub open spec fn checksum(s: Seq<u8>) -> u16 {
    (byte_sum(s) % 65536) as u16
}

/// A word of two bytes, the high one first.
pub open spec fn word(hi: u8, lo: u8) -> u16 {
    (hi * 256 + lo) as u16
}

fn make_word(hi: u8, lo: u8) -> (r: u16)
    ensures
        r == word(hi, lo),
{
    hi as u16 * 256 + lo as u16
}

/// The two bytes of a word, the high one first.
pub open spec fn word_bytes(w: u16) -> Seq<u8> {
    seq![(w / 256) as u8, (w % 256) as u8]
}

// ---------------------------------------------------------------------------
// The wire format
// ---------------------------------------------------------------------------

impl PacketView {
    /// The command word: type in the high byte, id in the low one.
    pub open spec fn cmd(self) -> u16 {
        word(self.cmd_type.code(), self.command_id)
    }

    /// Everything before the checksum.
    pub open spec fn body(self) -> Seq<u8> {
        match self.payload {
            PayloadView::Ack(a) => seq![
                0xAA,
                0x55,
                self.cmd_type.code(),
                (a % 256) as u8,
                self.command_id,
            ],
            PayloadView::Bytes(b) => seq![
                0xAA,
                0x55,
                self.cmd_type.code(),
                ((b.len() + 3) % 256) as u8,
                self.command_id,
            ] + b,
        }
    }

    /// The packet on the wire.
    pub open spec fn wire(self) -> Seq<u8> {
        self.body() + word_bytes(checksum(self.body()))
    }

    /// The packets that the wire format can carry: a payload of at most 252 bytes
    /// under a command that is not the acknowledgement, or an acknowledgement of
    /// an async command.
    pub open spec fn representable(self) -> bool {
        match self.payload {
            PayloadView::Ack(a) => self.cmd() == commands::CMD_ASYNC_ACK && a / 256 == 0x53,
            PayloadView::Bytes(b) => self.cmd() != commands::CMD_ASYNC_ACK && b.len() <= 252,
        }
    }
}

/// Why bytes are no packet, or not yet one.
#[derive(Debug, Copy, Clone, PartialEq, Eq, Structural)]
pub enum ParseError {
    HeaderTooShort,
    BadMagic,
    BadCommandType,
    AckTooShort,
    AckChecksum,
    PacketTooShort,
    PacketChecksum,
    BadLength,
}

impl ParseError {
    /// More bytes may still make a packet of it.
    pub open spec fn incomplete(self) -> bool {
        self is HeaderTooShort || self is AckTooShort || self is PacketTooShort
    }

    /// More bytes may still make a packet of it.
    pub fn is_incomplete(self) -> (r: bool)
        ensures
            r == self.incomplete(),
    {
        match self {
            ParseError::HeaderTooShort | ParseError::AckTooShort | ParseError::PacketTooShort => true,
            _ => false,
        }
    }

    /// The message for the error.
    pub open spec fn text(self) -> &'static str {
        match self {
            ParseError::HeaderTooShort => "Buffer too short for header",
            ParseError::BadMagic => "Invalid packet magic prefix",
            ParseError::BadCommandType => "Invalid CommandType byte",
            ParseError::AckTooShort => "Buffer too short for ACK packet",
            ParseError::AckChecksum => "Mismatched checksum in ACK packet",
            ParseError::PacketTooShort => "Buffer too short for expected packet length",
            ParseError::PacketChecksum => "Mismatched checksum in packet",
            ParseError::BadLength => "Invalid packet length",
        }
    }

    /// The message for the error.
    pub fn message(self) -> (r: &'static str)
        ensures
            r == self.text(),
    {
        match self {
            ParseError::HeaderTooShort => "Buffer too short for header",
            ParseError::BadMagic => "Invalid packet magic prefix",
            ParseError::BadCommandType => "Invalid CommandType byte",
            ParseError::AckTooShort => "Buffer too short for ACK packet",
            ParseError::AckChecksum => "Mismatched checksum in ACK packet",
            ParseError::PacketTooShort => "Buffer too short for expected packet length",
            ParseError::PacketChecksum => "Mismatched checksum in packet",
            ParseError::BadLength => "Invalid packet length",
        }
    }
}

/// Two bytes that may start a packet.
pub open spec fn is_magic(a: u8, b: u8) -> bool {
    (a == 0x55 && b == 0xAA) || (a == 0xAA && b == 0x55)
}

/// The checksum that stands in `s` behind its first `n` bytes.
pub open spec fn stated_checksum(s: Seq<u8>, n: int) -> u16 {
    word(s[n], s[n + 1])
}

/// What a byte sequence is: the packet at its front and its length, or an error.
pub open spec fn parse_result(s: Seq<u8>) -> Result<(PacketView, int), ParseError> {
    if s.len() < 5 {
        Err(ParseError::HeaderTooShort)
    } else if !is_magic(s[0], s[1]) {
        Err(ParseError::BadMagic)
    } else {
        match CommandType::of_code(s[2]) {
            None => Err(ParseError::BadCommandType),
            Some(t) => if word(s[2], s[4]) == commands::CMD_ASYNC_ACK {
                if s.len() < 7 {
                    Err(ParseError::AckTooShort)
                } else if stated_checksum(s, 5) != checksum(s.subrange(0, 5)) {
                    Err(ParseError::AckChecksum)
                } else {
                    Ok(
                        (
                            PacketView {
                                cmd_type: t,
                                command_id: s[4],
                                payload: PayloadView::Ack(word(s[2], s[3])),
                            },
                            7,
                        ),
                    )
                }
            } else {
                let n = s[3] + 4;
                if s.len() < n {
                    Err(ParseError::PacketTooShort)
                } else if stated_checksum(s, n - 2) != checksum(s.subrange(0, n - 2)) {
                    Err(ParseError::PacketChecksum)
                } else if n < 7 {
                    Err(ParseError::BadLength)
                } else {
                    Ok(
                        (
                            PacketView {
                                cmd_type: t,
                                command_id: s[4],
                                payload: PayloadView::Bytes(s.subrange(5, n - 2)),
                            },
                            n,
                        ),
                    )
                }
            },
        }
    }
}

impl Packet {
    pub const ASYNC_ACK: u16 = commands::CMD_ASYNC_ACK;

    /// A sync packet with a payload.
    pub fn new_sync(command_id: u8, payload: Vec<u8>) -> (r: Self)
        ensures
            r@ == (PacketView {
                cmd_type: CommandType::Sync,
                command_id,
                payload: PayloadView::Bytes(payload@),
            }),
    {
        Packet { cmd_type: CommandType::Sync, command_id, payload: PacketPayload::Bytes(payload) }
    }

    /// An async packet with a payload.
    pub fn new_async(command_id: u8, payload: Vec<u8>) -> (r: Self)
        ensures
            r@ == (PacketView {
                cmd_type: CommandType::Async,
                command_id,
                payload: PayloadView::Bytes(payload@),
            }),
    {
        Packet { cmd_type: CommandType::Async, command_id, payload: PacketPayload::Bytes(payload) }
    }

    /// The acknowledgement of a command.
    pub fn new_ack(ack_cmd: u16) -> (r: Self)
        ensures
            r@ == (PacketView {
                cmd_type: CommandType::Async,
                command_id: 0xFF,
                payload: PayloadView::Ack(ack_cmd),
            }),
    {
        Packet {
            cmd_type: CommandType::Async,
            command_id: 0xFF,
            payload: PacketPayload::Ack(ack_cmd),
        }
    }

    /// The command word.
    pub fn cmd(&self) -> (r: u16)
        ensures
            r == self@.cmd(),
    {
        make_word(self.cmd_type.to_byte(), self.command_id)
    }

    /// The payload bytes, or nothing if this is an acknowledgement.
    pub fn payload_bytes(&self) -> (r: Option<&[u8]>)
        ensures
            match self@.payload {
                PayloadView::Bytes(b) => r matches Some(p) && p@ == b,
                PayloadView::Ack(_) => r is None,
            },
    {
        match &self.payload {
            PacketPayload::Bytes(b) => Some(b.as_slice()),
            PacketPayload::Ack(_) => None,
        }
    }

    /// The 16-bit checksum of a byte sequence.
    pub fn calculate_checksum(data: &[u8]) -> (r: u16)
        ensures
            r == checksum(data@),
    {
        let mut sum: u16 = 0;
        let mut i: usize = 0;
        while i < data.len()
            invariant
                i <= data@.len(),
                sum == checksum(data@.subrange(0, i as int)),
            decreases data@.len() - i,
        {
            proof {
                let w = data@.subrange(0, i + 1);
                assert(w.drop_last() =~= data@.subrange(0, i as int));
                assert(w.last() == data@[i as int]);
            }
            sum = sum.wrapping_add(data[i] as u16);
            i += 1;
        }
        proof {
            assert(data@.subrange(0, data@.len() as int) =~= data@);
        }
        sum
    }

    /// Reads the packet at the front of a byte sequence. Gives it with the number of
    /// bytes that it takes.
    pub fn decode(s: &[u8]) -> (r: Result<(Self, usize), ParseError>)
        ensures
            match r {
                Ok((p, n)) => parse_result(s@) == Ok::<(PacketView, int), ParseError>(
                    (p@, n as int),
                ),
                Err(e) => parse_result(s@) == Err::<(PacketView, int), ParseError>(e),
            },
    {
        if s.len() < 5 {
            return Err(ParseError::HeaderTooShort);
        }
        if !starts_packet(s[0], s[1]) {
            return Err(ParseError::BadMagic);
        }
        let b2 = s[3];
        let command_id = s[4];
        let cmd_type = match CommandType::try_from(s[2]) {
            Ok(t) => t,
            Err(_) => {
                return Err(ParseError::BadCommandType);
            },
        };
        if make_word(s[2], command_id) == Self::ASYNC_ACK {
            if s.len() < 7 {
                return Err(ParseError::AckTooShort);
            }
            if make_word(s[5], s[6]) != Self::calculate_checksum(slice_subrange(s, 0, 5)) {
                return Err(ParseError::AckChecksum);
            }
            let payload = PacketPayload::Ack(make_word(s[2], b2));
            return Ok((Packet { cmd_type, command_id, payload }, 7));
        }
        let n: usize = b2 as usize + 4;
        if s.len() < n {
            return Err(ParseError::PacketTooShort);
        }
        if make_word(s[n - 2], s[n - 1]) != Self::calculate_checksum(slice_subrange(s, 0, n - 2)) {
            return Err(ParseError::PacketChecksum);
        }
        if n < 7 {
            return Err(ParseError::BadLength);
        }
        let payload = PacketPayload::Bytes(slice_to_vec(slice_subrange(s, 5, n - 2)));
        Ok((Packet { cmd_type, command_id, payload }, n))
    }

    /// Reads the packet at the front of a byte sequence. Gives it with the number of
    /// bytes that it takes, or says in words why there is none.
    pub fn parse(s: &[u8]) -> (r: Result<(Self, usize), &'static str>)
        ensures
            match r {
                Ok((p, n)) => parse_result(s@) == Ok::<(PacketView, int), ParseError>(
                    (p@, n as int),
                ),
                Err(m) => parse_result(s@) matches Err(e) && m == e.text(),
            },
    {
        match Self::decode(s) {
            Ok(x) => Ok(x),
            Err(e) => Err(e.message()),
        }
    }

    /// Writes the packet as bytes.
    pub fn to_bytes(&self) -> (r: Vec<u8>)
        ensures
            r@ == self@.wire(),
    {
        let mut pkt: Vec<u8> = Vec::new();
        pkt.push(0xAA);
        pkt.push(0x55);
        pkt.push(self.cmd_type.to_byte());
        match &self.payload {
            PacketPayload::Ack(ack_cmd) => {
                pkt.push((*ack_cmd % 256) as u8);
                pkt.push(self.command_id);
                proof {
                    assert(pkt@ =~= self@.body());
                }
            },
            PacketPayload::Bytes(bytes) => {
                let low: u8 = (bytes.len() % 256) as u8;
                pkt.push(low.wrapping_add(3));
                pkt.push(self.command_id);
                pkt.extend_from_slice(bytes.as_slice());
                proof {
                    assert(low.wrapping_add(3) == ((bytes@.len() + 3) % 256) as u8);
                    assert(pkt@ =~= self@.body());
                }
            },
        }
        let cs = Self::calculate_checksum(pkt.as_slice());
        pkt.push((cs / 256) as u8);
        pkt.push((cs % 256) as u8);
        proof {
            assert(pkt@ =~= self@.wire());
        }
        pkt
    }

    /// The packet in words, for a log line.
    pub fn describe(&self) -> (r: String)
        ensures
            r@ == self@.description(),
    {
        let mut r = "Packet: Cmd=".to_owned();
        r.append(hex::word_to_hex(self.cmd()).as_str());
        match &self.payload {
            PacketPayload::Ack(ack_cmd) => {
                r.append(", Payload=ACK(");
                r.append(hex::word_to_hex(*ack_cmd).as_str());
                r.append(")");
            },
            PacketPayload::Bytes(bytes) => {
                r.append(", Payload=[");
                if bytes.len() == 0 {
                    r.append("<None>");
                } else {
                    r.append(hex::list_to_hex(bytes.as_slice(), false).as_str());
                }
                r.append("]");
            },
        }
        r
    }
}

impl PacketView {
    /// The packet in words, for a log line.
    pub open spec fn description(self) -> Seq<char> {
        "Packet: Cmd="@ + hex::word_text(self.cmd()) + match self.payload {
            PayloadView::Ack(a) => ", Payload=ACK("@ + hex::word_text(a) + ")"@,
            PayloadView::Bytes(b) => ", Payload=["@ + (if b.len() == 0 {
                "<None>"@
            } else {
                hex::list_text(b, false)
            }) + "]"@,
        }
    }
}

fn starts_packet(a: u8, b: u8) -> (r: bool)
    ensures
        r == is_magic(a, b),
{
    (a == 0x55 && b == 0xAA) || (a == 0xAA && b == 0x55)
}

// ---------------------------------------------------------------------------
// Laws
// ---------------------------------------------------------------------------

pub proof fn lemma_byte_sum_concat(a: Seq<u8>, b: Seq<u8>)
    ensures
        byte_sum(a + b) == byte_sum(a) + byte_sum(b),
    decreases b.len(),
{
    if b.len() == 0 {
        assert(a + b =~= a);
    } else {
        assert((a + b).drop_last() =~= a + b.drop_last());
        lemma_byte_sum_concat(a, b.drop_last());
    }
}

proof fn lemma_word_of_bytes(w: u16)
    ensures
        word(word_bytes(w)[0], word_bytes(w)[1]) == w,
{
}

/// A packet that the wire format can carry comes back from its bytes as it was,
/// whatever follows it.
pub proof fn law_parse_of_wire(p: PacketView, rest: Seq<u8>)
    requires
        p.representable(),
    ensures
        parse_result(p.wire() + rest) == Ok::<(PacketView, int), ParseError>(
            (p, p.wire().len() as int),
        ),
{
    let body = p.body();
    let s = p.wire() + rest;
    let n = body.len() as int;
    lemma_word_of_bytes(checksum(body));
    assert(s.subrange(0, n) =~= body);
    assert(s[n] == word_bytes(checksum(body))[0]);
    assert(s[n + 1] == word_bytes(checksum(body))[1]);
    assert(s[2] == p.cmd_type.code() && s[4] == p.command_id);
    match p.payload {
        PayloadView::Ack(a) => {
            assert(word(s[2], s[3]) == a);
        },
        PayloadView::Bytes(b) => {
            assert(s[3] == b.len() + 3);
            assert(s.subrange(5, n) =~= b);
        },
    }
}

/// What was read as a packet is written as the same bytes, but for the order of
/// the two magic bytes.
pub proof fn law_wire_of_parse(s: Seq<u8>)
    requires
        parse_result(s) is Ok,
    ensures
        ({
            let (p, n) = parse_result(s)->Ok_0;
            p.representable() && 7 <= n <= s.len() && p.wire() == seq![0xAAu8, 0x55u8]
                + s.subrange(2, n)
        }),
{
    let (p, n) = parse_result(s)->Ok_0;
    let body = p.body();
    let seen = s.subrange(0, n - 2);
    let head = s.subrange(0, 2);
    let tail = s.subrange(2, n - 2);
    assert(seen =~= head + tail);
    assert(body =~= seq![0xAAu8, 0x55u8] + tail);
    lemma_byte_sum_concat(head, tail);
    lemma_byte_sum_concat(seq![0xAAu8, 0x55u8], tail);
    lemma_pair_sum(head);
    lemma_pair_sum(seq![0xAAu8, 0x55u8]);
    assert(p.wire() =~= seq![0xAAu8, 0x55u8] + s.subrange(2, n));
}

proof fn lemma_pair_sum(s: Seq<u8>)
    requires
        s.len() == 2,
    ensures
        byte_sum(s) == s[0] + s[1],
{
    reveal_with_fuel(byte_sum, 3);
}

/// Bytes that already are a packet, or can never become one, stay so when more
/// bytes follow.
pub proof fn law_parse_is_stable(s: Seq<u8>, more: Seq<u8>)
    requires
        match parse_result(s) {
            Ok(_) => true,
            Err(e) => !e.incomplete(),
        },
    ensures
        parse_result(s + more) == parse_result(s),
{
    let t = s + more;
    assert(s.len() >= 5);
    assert(forall|i: int| 0 <= i < s.len() ==> t[i] == s[i]);
    if is_magic(s[0], s[1]) && CommandType::of_code(s[2]) is Some {
        if word(s[2], s[4]) == commands::CMD_ASYNC_ACK {
            assert(t.subrange(0, 5) =~= s.subrange(0, 5));
        } else {
            let n = s[3] + 4;
            assert(t.subrange(0, n - 2) =~= s.subrange(0, n - 2));
            if s[3] >= 3 {
                assert(t.subrange(5, n - 2) =~= s.subrange(5, n - 2));
            }
        }
    }
}

/// A packet is read from its first bytes alone.
pub proof fn law_parse_reads_a_prefix(s: Seq<u8>)
    requires
        parse_result(s) is Ok,
    ensures
        7 <= parse_result(s)->Ok_0.1 <= s.len(),
        parse_result(s.subrange(0, parse_result(s)->Ok_0.1)) == parse_result(s),
{
    let n = parse_result(s)->Ok_0.1;
    let t = s.subrange(0, n);
    if word(s[2], s[4]) == commands::CMD_ASYNC_ACK {
        assert(t.subrange(0, 5) =~= s.subrange(0, 5));
    } else {
        assert(t.subrange(0, n - 2) =~= s.subrange(0, n - 2));
        assert(t.subrange(5, n - 2) =~= s.subrange(5, n - 2));
    }
}

/// The messages tell the two sorts of error apart: the ones that speak of bytes
/// being too short are the ones that more bytes may mend.
pub proof fn law_incomplete_says_too_short(e: ParseError)
    ensures
        e.incomplete() <==> crate::text::has_part(e.text()@, "too short"@),
{
    reveal_strlit("too short");
    reveal_strlit("Buffer too short for header");
    reveal_strlit("Invalid packet magic prefix");
    reveal_strlit("Invalid CommandType byte");
    reveal_strlit("Buffer too short for ACK packet");
    reveal_strlit("Mismatched checksum in ACK packet");
    reveal_strlit("Buffer too short for expected packet length");
    reveal_strlit("Mismatched checksum in packet");
    reveal_strlit("Invalid packet length");
    let t = e.text()@;
    let p = "too short"@;
    if e.incomplete() {
        let at: int = 7;
        assert(t.subrange(at, at + p.len()) =~= p);
    } else {
        assert forall|i: int| 0 <= i <= t.len() - p.len() implies #[trigger] t.subrange(
            i,
            i + p.len(),
        ) != p by {
            let w = t.subrange(i, i + p.len());
            assert(w[0] == t[i] && w[1] == t[i + 1] && w[2] == t[i + 2]);
        }
    }
}

/// The checksum adds the bytes up, and forgets what does not fit 16 bits: the order of the
/// bytes does not matter, and one more byte adds itself.
pub proof fn law_checksum_adds_up(s: Seq<u8>, b: u8, t: Seq<u8>)
    ensures
        checksum(Seq::<u8>::empty()) == 0,
        checksum(s.push(b)) == (checksum(s) + b) % 65536,
        checksum(s + t) == checksum(t + s),
{
    assert(s.push(b).drop_last() =~= s);
    lemma_byte_sum_concat(s, t);
    lemma_byte_sum_concat(t, s);
}

/// How a packet stands on the wire: two magic bytes, the type, a byte, the command id, the
/// payload, and the checksum of all that with the high byte first. The byte counts what
/// follows it, or names the command that is acknowledged.
pub proof fn law_wire_layout(p: PacketView)
    requires
        p.representable(),
    ensures
        ({
            let w = p.wire();
            let n = w.len();
            &&& w[0] == 0xAA
            &&& w[1] == 0x55
            &&& p.cmd_type is Sync ==> w[2] == 0x43
            &&& p.cmd_type is Async ==> w[2] == 0x53
            &&& w[4] == p.command_id
            &&& p.payload matches PayloadView::Bytes(b) ==> {
                &&& n == b.len() + 7
                &&& w[3] == n - 4
                &&& w.subrange(5, n - 2) == b
            }
            &&& p.payload matches PayloadView::Ack(a) ==> {
                &&& n == 7
                &&& w[3] == a % 256
                &&& w[4] == 0xFF
            }
            &&& w[n - 2] * 256 + w[n - 1] == byte_sum(w.subrange(0, n - 2)) % 65536
        }),
{
    let w = p.wire();
    let n = w.len();
    assert(w.subrange(0, n - 2) =~= p.body());
    match p.payload {
        PayloadView::Bytes(b) => {
            assert(w.subrange(5, n - 2) =~= b);
        },
        PayloadView::Ack(_) => {},
    }
}

/// What is read as a packet: the third byte is its type, the fifth its command id. An
/// acknowledgement is what has the async command 0xFF, and it names an async command by its
/// low byte; anything else carries the bytes between the fifth and the checksum.
pub proof fn law_parse_layout(s: Seq<u8>)
    requires
        parse_result(s) is Ok,
    ensures
        ({
            let (p, n) = parse_result(s)->Ok_0;
            &&& s[0] == 0xAA && s[1] == 0x55 || s[0] == 0x55 && s[1] == 0xAA
            &&& s[2] == 0x43 <==> p.cmd_type is Sync
            &&& s[2] == 0x53 <==> p.cmd_type is Async
            &&& s[2] == 0x43 || s[2] == 0x53
            &&& p.command_id == s[4]
            &&& p.cmd() == s[2] * 256 + s[4]
            &&& p.payload is Ack <==> s[2] == 0x53 && s[4] == 0xFF
            &&& p.payload is Ack ==> n == 7 && p.payload->Ack_0 == 0x5300 + s[3]
            &&& p.payload is Bytes ==> n == s[3] + 4 && p.payload->Bytes_0 == s.subrange(5, n - 2)
            &&& s[n - 2] * 256 + s[n - 1] == byte_sum(s.subrange(0, n - 2)) % 65536
        }),
{
}

/// Why bytes are refused: each error comes on its own flaw, and the first one counts.
pub proof fn law_flaws_are_told(s: Seq<u8>)
    ensures
        ({
            let magic = s[0] == 0xAA && s[1] == 0x55 || s[0] == 0x55 && s[1] == 0xAA;
            let typed = s[2] == 0x43 || s[2] == 0x53;
            let ack = s[2] == 0x53 && s[4] == 0xFF;
            let n = s[3] + 4;
            let r = parse_result(s);
            &&& r == Err::<(PacketView, int), ParseError>(ParseError::HeaderTooShort) <==> s.len() < 5
            &&& s.len() >= 5 ==> (r == Err::<(PacketView, int), ParseError>(ParseError::BadMagic)
                <==> !magic)
            &&& s.len() >= 5 && magic ==> (r == Err::<(PacketView, int), ParseError>(
                ParseError::BadCommandType,
            ) <==> !typed)
            &&& s.len() >= 5 && magic && ack ==> (r == Err::<(PacketView, int), ParseError>(
                ParseError::AckTooShort,
            ) <==> s.len() < 7)
            &&& s.len() >= 7 && magic && ack ==> (r == Err::<(PacketView, int), ParseError>(
                ParseError::AckChecksum,
            ) <==> s[5] * 256 + s[6] != byte_sum(s.subrange(0, 5)) % 65536)
            &&& s.len() >= 5 && magic && typed && !ack ==> (r == Err::<
                (PacketView, int),
                ParseError,
            >(ParseError::PacketTooShort) <==> s.len() < n)
            &&& s.len() >= 5 && s.len() >= n && magic && typed && !ack ==> (r == Err::<
                (PacketView, int),
                ParseError,
            >(ParseError::PacketChecksum) <==> s[n - 2] * 256 + s[n - 1] != byte_sum(
                s.subrange(0, n - 2),
            ) % 65536)
        }),
{
}

/// A packet that was damaged in its payload is refused: one byte that is not what it was
/// shows in the checksum.
pub proof fn law_damage_is_seen(p: PacketView, i: int, b: u8, rest: Seq<u8>)
    requires
        p.representable(),
        p.payload is Bytes,
        0 <= i < p.payload->Bytes_0.len(),
        b != p.payload->Bytes_0[i],
    ensures
        parse_result(p.wire().update(5 + i, b) + rest) == Err::<(PacketView, int), ParseError>(
            ParseError::PacketChecksum,
        ),
{
    let w = p.wire();
    let s = w.update(5 + i, b) + rest;
    let n = w.len();
    let body = p.body();
    let seen = s.subrange(0, n - 2);
    let left = body.subrange(0, 5 + i);
    let right = body.subrange(6 + i, body.len() as int);
    lemma_word_of_bytes(checksum(body));
    assert(body =~= left + seq![body[5 + i]] + right);
    assert(seen =~= left + seq![b] + right);
    lemma_byte_sum_concat(left, seq![body[5 + i]]);
    lemma_byte_sum_concat(left + seq![body[5 + i]], right);
    lemma_byte_sum_concat(left, seq![b]);
    lemma_byte_sum_concat(left + seq![b], right);
    assert(seq![b].drop_last() =~= Seq::<u8>::empty());
    assert(seq![body[5 + i]].drop_last() =~= Seq::<u8>::empty());
    reveal_with_fuel(byte_sum, 2);
    assert(byte_sum(seq![b]) == b);
    assert(byte_sum(seq![body[5 + i]]) == body[5 + i]);
    assert(s[0] == 0xAA && s[1] == 0x55 && s[2] == p.cmd_type.code() && s[4] == p.command_id);
    assert(s[3] + 4 == n);
    assert(s[n - 2] == w[n - 2] && s[n - 1] == w[n - 1]);
}

/// A packet in words names its command, and what it acknowledges or carries.
pub proof fn law_packet_in_words(p: PacketView)
    ensures
        p.payload is Ack ==> p.description() == "Packet: Cmd="@ + hex::word_text(p.cmd())
            + (", Payload=ACK("@ + hex::word_text(p.payload->Ack_0) + ")"@),
        p.payload is Bytes && p.payload->Bytes_0.len() == 0 ==> p.description()
            == "Packet: Cmd="@ + hex::word_text(p.cmd()) + (", Payload=["@ + "<None>"@ + "]"@),
        p.payload is Bytes && p.payload->Bytes_0.len() > 0 ==> p.description() == "Packet: Cmd="@
            + hex::word_text(p.cmd()) + (", Payload=["@ + hex::list_text(
            p.payload->Bytes_0,
            false,
        ) + "]"@),
{
}

} // verus!
