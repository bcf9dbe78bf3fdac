//! What a packet from the dongle calls for.
use crate::clock;
use crate::engine::command;
use crate::hex;
use crate::protocol::bytes;
use crate::protocol::events;
use crate::protocol::packet;
use crate::protocol::packet::{commands, CommandType, Packet, PacketPayload, PacketView, PayloadView};
use crate::protocol::stream;
use crate::protocol::telemetry;
use crate::protocol::telemetry::{DongleEvent, EventView, SensorType, TelemetryView};
use crate::text;
use vstd::prelude::*;
use vstd::slice::*;
use vstd::string::*;
use vstd::utf8::*;

verus! {

// ---------------------------------------------------------------------------
// Types
// ---------------------------------------------------------------------------

/// A line of the dongle's own log.
#[derive(Debug, PartialEq, Eq)]
pub struct EventLog {
    /// Milliseconds since the Unix epoch, by the dongle's clock.
    pub timestamp_ms: u64,
    /// The length that the dongle states.
    pub msg_len: u8,
    pub data: Vec<u8>,
}

/// The model of a log line.
pub struct LogView {
    pub timestamp_ms: u64,
    pub msg_len: u8,
    pub data: Seq<u8>,
}

impl View for EventLog {
    type V = LogView;

    open spec fn view(&self) -> LogView {
        LogView { timestamp_ms: self.timestamp_ms, msg_len: self.msg_len, data: self.data@ }
    }
}

impl LogView {
    /// The log line in words.
    pub open spec fn description(self) -> Seq<char> {
        "EVENT LOG: ts="@ + text::decimal(self.timestamp_ms as nat) + ", msg_len="@
            + text::decimal(self.msg_len as nat) + ", data=["@ + hex::list_text(self.data, false)
            + "]"@
    }
}

impl EventLog {
    /// The log line in words.
    pub fn describe(&self) -> (r: String)
        ensures
            r@ == self@.description(),
    {
        let mut t = "EVENT LOG: ts=".to_owned();
        t.append(text::to_decimal(self.timestamp_ms).as_str());
        t.append(", msg_len=");
        t.append(text::to_decimal(self.msg_len as u64).as_str());
        t.append(", data=[");
        t.append(hex::list_to_hex(self.data.as_slice(), false).as_str());
        t.append("]");
        t
    }
}

/// What a packet calls for.
#[derive(Debug, PartialEq, Eq)]
pub struct Reaction {
    /// The command word under which a request may wait for this packet.
    pub answers: u16,
    /// What to send back, in this order.
    pub replies: Vec<Packet>,
    /// What to tell the rest of the bridge.
    pub event: Option<DongleEvent>,
    /// A sensor that the dongle lists as bound.
    pub listed: Option<String>,
    /// A line for the log.
    pub log: Option<EventLog>,
}

/// The model of a reaction.
pub struct ReactionView {
    pub answers: u16,
    pub replies: Seq<PacketView>,
    pub event: Option<EventView>,
    pub listed: Option<Seq<char>>,
    pub log: Option<LogView>,
}

impl View for Reaction {
    type V = ReactionView;

    open spec fn view(&self) -> ReactionView {
        ReactionView {
            answers: self.answers,
            replies: stream::packets(self.replies@),
            event: match self.event {
                Some(e) => Some(e@),
                None => None,
            },
            listed: text::option_view(self.listed),
            log: match self.log {
                Some(l) => Some(l@),
                None => None,
            },
        }
    }
}

// ---------------------------------------------------------------------------
// The model
// ---------------------------------------------------------------------------

/// The command word that a packet answers: an acknowledgement answers the command that it
/// acknowledges, any other packet stands for itself.
pub open spec fn answers(p: PacketView) -> u16 {
    match p.payload {
        PayloadView::Ack(a) => a,
        PayloadView::Bytes(_) => p.cmd(),
    }
}

/// The acknowledgement of a command.
pub open spec fn ack_of(cmd: u16) -> PacketView {
    PacketView {
        cmd_type: CommandType::Async,
        command_id: 0xFF,
        payload: PayloadView::Ack(cmd),
    }
}

/// Every async packet is acknowledged, but for acknowledgements.
pub open spec fn wants_ack(p: PacketView) -> bool {
    p.cmd_type is Async && p.command_id != 0xFF
}

/// The answer to a dongle that asks for the time.
pub open spec fn time_reply(now: u64) -> PacketView {
    command::packet_of(commands::CMD_TIME_SYNC_RESPONSE, bytes::be_bytes(now))
}

/// What is sent back on a packet.
pub open spec fn replies(p: PacketView, now: u64) -> Seq<PacketView> {
    (if wants_ack(p) {
        seq![ack_of(answers(p))]
    } else {
        Seq::empty()
    }) + (if p.cmd() == commands::CMD_TIME_SYNC {
        seq![time_reply(now)]
    } else {
        Seq::empty()
    })
}

/// An event as it came through a dongle.
pub open spec fn tagged(
    e: Result<EventView, &'static str>,
    dongle: Option<Seq<char>>,
) -> Option<EventView> {
    match e {
        Ok(v) => Some(EventView { dongle_mac: dongle, ..v }),
        Err(_) => None,
    }
}

/// The event that a packet carries, if it carries one that is understood.
pub open spec fn event_of(p: PacketView, dongle: Option<Seq<char>>, now: u64) -> Option<EventView> {
    match p.payload {
        PayloadView::Ack(_) => None,
        PayloadView::Bytes(b) => if p.cmd() == commands::CMD_ALARM1 {
            tagged(telemetry::alarm1_event(b), dongle)
        } else if p.cmd() == commands::CMD_ALARM2 {
            tagged(telemetry::alarm2_event(b, now), dongle)
        } else if p.cmd() == commands::CMD_SENSOR_SCAN {
            tagged(telemetry::scan_event(b, now), dongle)
        } else {
            None
        },
    }
}

/// The sensor that a packet lists.
pub open spec fn listed(p: PacketView) -> Option<Seq<char>> {
    match p.payload {
        PayloadView::Ack(_) => None,
        PayloadView::Bytes(b) => if p.cmd() == commands::CMD_SENSOR_LIST_ITEM && valid_utf8(b) {
            Some(decode_utf8(b))
        } else {
            None
        },
    }
}

/// The log line that a packet carries: the time, the length, and the bytes.
pub open spec fn logged(p: PacketView) -> Option<LogView> {
    match p.payload {
        PayloadView::Ack(_) => None,
        PayloadView::Bytes(b) => if p.cmd() == commands::CMD_EVENT_LOG && b.len() >= 9 {
            Some(
                LogView {
                    timestamp_ms: bytes::be_value(b.subrange(0, 8)) as u64,
                    msg_len: b[8],
                    data: b.subrange(9, b.len() as int),
                },
            )
        } else {
            None
        },
    }
}

/// What a packet calls for.
pub open spec fn reaction(p: PacketView, dongle: Option<Seq<char>>, now: u64) -> ReactionView {
    ReactionView {
        answers: answers(p),
        replies: replies(p, now),
        event: event_of(p, dongle, now),
        listed: listed(p),
        log: logged(p),
    }
}

// ---------------------------------------------------------------------------
// The code
// ---------------------------------------------------------------------------

fn tag(e: Result<DongleEvent, &'static str>, dongle: &Option<String>) -> (r: Option<DongleEvent>)
    ensures
        match (e, r) {
            (Ok(v), Some(w)) => w@ == (EventView {
                dongle_mac: text::option_view(*dongle),
                ..v@
            }),
            (Err(_), None) => true,
            _ => false,
        },
{
    match e {
        Ok(v) => {
            let mut w = v;
            w.dongle_mac = text::copy_option(dongle);
            Some(w)
        },
        Err(_) => None,
    }
}

fn read_event(p: &Packet, dongle: &Option<String>, now: u64) -> (r: Option<DongleEvent>)
    ensures
        match r {
            Some(e) => event_of(p@, text::option_view(*dongle), now) == Some(e@),
            None => event_of(p@, text::option_view(*dongle), now) is None,
        },
{
    match &p.payload {
        PacketPayload::Ack(_) => None,
        PacketPayload::Bytes(b) => {
            let cmd = p.cmd();
            if cmd == commands::CMD_ALARM1 {
                tag(DongleEvent::parse_alarm1(b.as_slice()), dongle)
            } else if cmd == commands::CMD_ALARM2 {
                tag(DongleEvent::parse_alarm2_at(b.as_slice(), now), dongle)
            } else if cmd == commands::CMD_SENSOR_SCAN {
                tag(DongleEvent::parse_scan_at(b.as_slice(), now), dongle)
            } else {
                None
            }
        },
    }
}

fn read_listed(p: &Packet) -> (r: Option<String>)
    ensures
        text::option_view(r) == listed(p@),
{
    match &p.payload {
        PacketPayload::Ack(_) => None,
        PacketPayload::Bytes(b) => if p.cmd() == commands::CMD_SENSOR_LIST_ITEM {
            text::from_utf8(slice_to_vec(b.as_slice()))
        } else {
            None
        },
    }
}

fn read_log(p: &Packet) -> (r: Option<EventLog>)
    ensures
        match r {
            Some(l) => logged(p@) == Some(l@),
            None => logged(p@) is None,
        },
{
    match &p.payload {
        PacketPayload::Ack(_) => None,
        PacketPayload::Bytes(b) => if p.cmd() == commands::CMD_EVENT_LOG && b.len() >= 9 {
            let n: usize = b.len();
            let data = slice_to_vec(slice_subrange(b.as_slice(), 9, n));
            proof {
                bytes::lemma_be_value_fits(b@.subrange(0, 8));
            }
            Some(
                EventLog {
                    timestamp_ms: bytes::u64_from_be(slice_subrange(b.as_slice(), 0, 8)),
                    msg_len: b[8],
                    data,
                },
            )
        } else {
            None
        },
    }
}

/// What a packet calls for that came in through a dongle at the given millisecond.
pub fn handle_packet_at(p: &Packet, dongle: &Option<String>, now: u64) -> (r: Reaction)
    ensures
        r@ == reaction(p@, text::option_view(*dongle), now),
{
    let answered: u16 = match &p.payload {
        PacketPayload::Ack(a) => *a,
        PacketPayload::Bytes(_) => p.cmd(),
    };
    let mut out: Vec<Packet> = Vec::new();
    match p.cmd_type {
        CommandType::Async => {
            if p.command_id != 0xFF {
                out.push(Packet::new_ack(answered));
            }
        },
        CommandType::Sync => {},
    }
    if p.cmd() == commands::CMD_TIME_SYNC {
        out.push(Packet::new_async(0x33, bytes::u64_to_be(now)));
    }
    proof {
        assert(stream::packets(out@) =~= replies(p@, now));
    }
    Reaction {
        answers: answered,
        replies: out,
        event: read_event(p, dongle, now),
        listed: read_listed(p),
        log: read_log(p),
    }
}

/// What a packet calls for that came in just now. Nothing is known of the moment.
pub fn handle_packet(p: &Packet, dongle: &Option<String>) -> (r: Reaction)
    ensures
        exists|now: u64| #![auto] r@ == reaction(p@, text::option_view(*dongle), now),
{
    handle_packet_at(p, dongle, clock::now_ms())
}

// ---------------------------------------------------------------------------
// Laws
// ---------------------------------------------------------------------------

/// Every async packet is acknowledged first of all, under the command that it answers.
pub proof fn law_async_is_acknowledged(p: PacketView, now: u64)
    requires
        p.cmd_type is Async,
        p.command_id != 0xFF,
    ensures
        replies(p, now).len() > 0,
        replies(p, now)[0] == ack_of(answers(p)),
{
}

/// Nothing is sent back on an acknowledgement, nor on a sync packet: two sides that
/// acknowledge what they get come to rest.
pub proof fn law_acknowledgement_ends_exchange(p: PacketView, cmd: u16, now: u64)
    ensures
        p.cmd_type is Sync ==> replies(p, now).len() == 0,
        p.cmd_type is Async && p.command_id == 0xFF ==> replies(p, now).len() == 0,
        replies(ack_of(cmd), now).len() == 0,
{
    assert(packet::word(0x43, p.command_id) != commands::CMD_TIME_SYNC);
}

/// The acknowledgement of a packet arrives as the acknowledgement of that packet's command.
pub proof fn law_acknowledgement_arrives(p: PacketView, rest: Seq<u8>)
    requires
        p.payload is Bytes,
        p.cmd_type is Async,
    ensures
        packet::parse_result(ack_of(answers(p)).wire() + rest) == Ok::<
            (PacketView, int),
            packet::ParseError,
        >((ack_of(p.cmd()), 7)),
        answers(ack_of(answers(p))) == p.cmd(),
{
    let a = ack_of(answers(p));
    packet::law_parse_of_wire(a, rest);
    assert(a.wire().len() == 7);
}

/// The time in the reply to a dongle that asks for it is the time of the reply.
pub proof fn law_time_is_told(p: PacketView, now: u64)
    requires
        p.cmd() == commands::CMD_TIME_SYNC,
    ensures
        replies(p, now).last() == time_reply(now),
        time_reply(now).cmd() == commands::CMD_TIME_SYNC_RESPONSE,
        bytes::be_value(time_reply(now).payload->Bytes_0) == now,
{
    bytes::law_be_round_trip(now);
}

/// A sensor that comes up in a scan is told as such, under the dongle that found it.
pub proof fn law_scan_is_told(
    mac: Seq<char>,
    sensor_type: SensorType,
    version: u8,
    dongle: Option<Seq<char>>,
    now: u64,
)
    requires
        encode_utf8(mac).len() == 8,
    ensures
        event_of(
            command::packet_of(
                commands::CMD_SENSOR_SCAN,
                events::scan_payload(mac, sensor_type, version),
            ),
            dongle,
            now,
        ) == Some(
            EventView {
                mac,
                timestamp: now,
                sensor_type: SensorType::of_code(sensor_type.code()),
                event_type: events::EVENT_TYPE_SCAN,
                data: TelemetryView::Scanned { version },
                dongle_mac: dongle,
            },
        ),
{
    events::law_scan_reads_back(mac, sensor_type, version, now);
}

/// A sensor that the dongle lists under its MAC address comes in under that address.
pub proof fn law_listed_mac_arrives(mac: Seq<char>)
    ensures
        listed(command::packet_of(commands::CMD_SENSOR_LIST_ITEM, encode_utf8(mac))) == Some(mac),
{
    encode_utf8_valid_utf8(mac);
    encode_utf8_decode_utf8(mac);
}

/// Which packets tell of a sensor: 0x5319 carries an alarm, 0x5355 an extended alarm, 0x5320
/// a sensor that came up in a scan. The event is told under the dongle that it came through;
/// what is not understood is not told, and nothing else is an event.
pub proof fn law_events_by_command(p: PacketView, dongle: Option<Seq<char>>, now: u64)
    ensures
        ({
            let b = p.payload->Bytes_0;
            let r = if p.cmd() == 0x5319 {
                telemetry::alarm1_event(b)
            } else if p.cmd() == 0x5355 {
                telemetry::alarm2_event(b, now)
            } else {
                telemetry::scan_event(b, now)
            };
            let tells = p.payload is Bytes && (p.cmd() == 0x5319 || p.cmd() == 0x5355 || p.cmd()
                == 0x5320);
            let e = event_of(p, dongle, now);
            &&& e is Some <==> tells && r is Ok
            &&& e is Some ==> {
                &&& e->0.mac == r->Ok_0.mac
                &&& e->0.timestamp == r->Ok_0.timestamp
                &&& e->0.sensor_type == r->Ok_0.sensor_type
                &&& e->0.event_type == r->Ok_0.event_type
                &&& e->0.data == r->Ok_0.data
                &&& e->0.dongle_mac == dongle
            }
        }),
{
}

/// What is sent back on a packet: nothing, or its acknowledgement, and behind that the time
/// for a dongle that asks for it with 0x5332.
pub proof fn law_replies_by_command(p: PacketView, now: u64)
    ensures
        ({
            let r = replies(p, now);
            let known = p.cmd_type is Async && p.command_id != 0xFF;
            &&& !known ==> r.len() == 0
            &&& known && p.cmd() != 0x5332 ==> r.len() == 1
            &&& known && p.cmd() == 0x5332 ==> {
                &&& r.len() == 2
                &&& r[1].cmd_type is Async
                &&& r[1].command_id == 0x33
                &&& r[1].payload == PayloadView::Bytes(bytes::be_bytes(now))
            }
            &&& known ==> {
                &&& r[0].cmd_type is Async
                &&& r[0].command_id == 0xFF
                &&& r[0].payload is Ack
                &&& p.payload is Bytes ==> r[0].payload->Ack_0 == p.cmd_type.code() * 256
                    + p.command_id
            }
        }),
{
    assert(packet::word(0x43, p.command_id) != commands::CMD_TIME_SYNC);
    assert(packet::word(0x53, 0xFF) != commands::CMD_TIME_SYNC);
}

/// Whom a packet answers: an acknowledgement the command that it acknowledges, anything else
/// the command word that it carries itself.
pub proof fn law_whom_a_packet_answers(p: PacketView)
    ensures
        p.payload is Ack ==> answers(p) == p.payload->Ack_0,
        p.payload is Bytes ==> answers(p) == p.cmd_type.code() * 256 + p.command_id,
{
}

/// A packet lists a sensor exactly where its command is 0x5331 and its payload is text, and
/// the sensor is the one that the payload spells.
pub proof fn law_listed_by_command(p: PacketView)
    ensures
        listed(p) is Some <==> p.cmd() == 0x5331 && p.payload is Bytes && valid_utf8(
            p.payload->Bytes_0,
        ),
        listed(p) is Some ==> encode_utf8(listed(p)->0) == p.payload->Bytes_0,
{
    if listed(p) is Some {
        decode_utf8_encode_utf8(p.payload->Bytes_0);
    }
}

/// Where a line of the dongle's log keeps what it says: eight bytes of time with the highest
/// first, the length that the dongle states, and the rest.
pub proof fn law_log_bytes(p: PacketView)
    ensures
        logged(p) is Some <==> p.cmd() == 0x5335 && p.payload is Bytes && p.payload->Bytes_0.len()
            >= 9,
        logged(p) is Some ==> {
            let b = p.payload->Bytes_0;
            let l = logged(p)->0;
            &&& l.timestamp_ms == b[0] * 0x100_0000_0000_0000 + b[1] * 0x1_0000_0000_0000 + b[2]
                * 0x100_0000_0000 + b[3] * 0x1_0000_0000 + b[4] * 0x100_0000 + b[5] * 0x1_0000
                + b[6] * 0x100 + b[7]
            &&& l.msg_len == b[8]
            &&& l.data == b.subrange(9, b.len() as int)
        },
{
    if logged(p) is Some {
        let t = p.payload->Bytes_0.subrange(0, 8);
        bytes::law_highest_byte_first(t, 0);
        bytes::lemma_be_value_fits(t);
    }
}

/// What a packet calls for is all of that, and each in its own place.
pub proof fn law_reaction_is_whole(p: PacketView, dongle: Option<Seq<char>>, now: u64)
    ensures
        reaction(p, dongle, now).answers == answers(p),
        reaction(p, dongle, now).replies == replies(p, now),
        reaction(p, dongle, now).event == event_of(p, dongle, now),
        reaction(p, dongle, now).listed == listed(p),
        reaction(p, dongle, now).log == logged(p),
{
}

/// From the air to the bridge: an alarm that a dongle writes is told as the alarm that it is,
/// of the sensor and at the time that it names, under the dongle that it came through.
pub proof fn law_alarm_is_told(
    timestamp: u64,
    mac: Seq<char>,
    sensor_type: SensorType,
    state: u8,
    battery: u8,
    rssi: u8,
    dongle: Option<Seq<char>>,
    now: u64,
)
    requires
        encode_utf8(mac).len() == 8,
        !(sensor_type is Unknown),
        rssi <= 128,
    ensures
        ({
            let p = events::async_packet(
                0x19,
                events::alarm1_payload(
                    bytes::be_bytes(timestamp),
                    DongleEvent::EVENT_TYPE_ALARM,
                    mac,
                    sensor_type,
                    events::alarm_bytes(state, battery, rssi),
                ),
            );
            let e = event_of(p, dongle, now);
            &&& e is Some
            &&& e->0.mac == mac
            &&& e->0.timestamp == timestamp
            &&& e->0.sensor_type == sensor_type
            &&& e->0.dongle_mac == dongle
            &&& e->0.data is Alarm
            &&& e->0.data->Alarm_state == state
            &&& e->0.data->Alarm_battery == battery
            &&& e->0.data->Alarm_rssi == -rssi
        }),
{
    let rest = events::alarm_bytes(state, battery, rssi);
    events::law_alarm1_reads_back(
        timestamp,
        DongleEvent::EVENT_TYPE_ALARM,
        mac,
        sensor_type,
        rest,
    );
    events::law_telemetry_reads_back(state, battery, rssi, 0, 0, 0, false, 0);
    telemetry::law_sensor_codes(0, sensor_type);
}

/// A line of the dongle's log in words names its time, the length that the dongle states, and
/// the bytes.
pub proof fn law_log_line_in_words(l: LogView)
    ensures
        l.description() == "EVENT LOG: ts="@ + text::decimal(l.timestamp_ms as nat)
            + ", msg_len="@ + text::decimal(l.msg_len as nat) + ", data=["@ + hex::list_text(
            l.data,
            false,
        ) + "]"@,
{
}

} // verus!
