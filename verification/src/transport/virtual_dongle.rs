//! A dongle in memory: it answers the handshake and the operational commands, and
//! sensor events can be injected into it.
use crate::engine::command::{EngineError, RequestView};
use crate::engine::dispatch;
use crate::engine::handshake::{self, HandshakeStep, HandshakeView};
use crate::protocol::bytes;
use crate::protocol::events::{self, push_mac};
use crate::protocol::packet::{self, commands, Packet, PacketView};
use crate::protocol::stream;
use crate::protocol::telemetry::{self, DongleEvent, SensorType};
use crate::text;
use crate::transport::replay::{ReplayTransport, ReplayView};
use vstd::prelude::*;
use vstd::slice::*;
use vstd::string::*;
use vstd::utf8::*;

verus! {

/// The time that injected alarm events carry.
pub const EVENT_TIME: u64 = 0x0000018FAB8E8C00;

/// A dongle that exists in memory only.
pub struct VirtualDongle {
    transport: ReplayTransport,
    mac: String,
    version: String,
    nvram_sensors: Vec<String>,
}

/// The model of a dongle in memory.
pub struct VirtualDongleView {
    pub transport: ReplayView,
    pub mac: Seq<char>,
    pub version: Seq<char>,
    pub sensors: Seq<Seq<char>>,
}

impl View for VirtualDongle {
    type V = VirtualDongleView;

    closed spec fn view(&self) -> VirtualDongleView {
        VirtualDongleView {
            transport: self.transport@,
            mac: self.mac@,
            version: self.version@,
            sensors: text::views(self.nvram_sensors@),
        }
    }
}

impl VirtualDongleView {
    pub open spec fn enqueue(self, data: Seq<u8>) -> VirtualDongleView {
        VirtualDongleView { transport: self.transport.enqueue(data), ..self }
    }
}

// ---------------------------------------------------------------------------
// The replies of a new dongle
// ---------------------------------------------------------------------------

/// The replies to the five commands of the handshake.
pub open spec fn handshake_replies(mac: Seq<char>, version: Seq<char>) -> ReplayView {
    ReplayView::empty().register(
        commands::CMD_INQUIRY,
        events::sync_packet(0x28, seq![0x01]).wire(),
    ).register(
        commands::CMD_GET_ENR,
        events::sync_packet(0x03, Seq::new(16, |i: int| 0x31u8)).wire(),
    ).register(
        commands::CMD_GET_MAC,
        events::sync_packet(0x05, encode_utf8(mac)).wire(),
    ).register(
        commands::CMD_GET_VERSION,
        events::async_packet(0x17, encode_utf8(version)).wire(),
    ).register(commands::CMD_FINISH_AUTH, events::async_packet(0x15, Seq::empty()).wire())
}

/// The reply to a command that only says yes or no.
pub open spec fn flag_reply(command_id: u8, flag: u8) -> Seq<u8> {
    events::async_packet(command_id, seq![flag]).wire()
}

/// The replies of a new dongle: the handshake, scanning on and off, and one each of
/// verify, delete and chime.
pub open spec fn initial_replies(mac: Seq<char>, version: Seq<char>) -> ReplayView {
    handshake_replies(mac, version).register(commands::CMD_SET_SCAN, flag_reply(0x1D, 1)).register(
        commands::CMD_SET_SCAN,
        flag_reply(0x1D, 0),
    ).register(commands::CMD_VERIFY_SENSOR, flag_reply(0x24, 1)).register(
        commands::CMD_DELETE_SENSOR,
        flag_reply(0x26, 1),
    ).register(commands::CMD_PLAY_CHIME, flag_reply(0x71, 1))
}

/// The packets that list the paired sensors, one for each.
pub open spec fn list_items(sensors: Seq<Seq<char>>) -> Seq<u8>
    decreases sensors.len(),
{
    if sensors.len() == 0 {
        Seq::empty()
    } else {
        list_items(sensors.drop_last()) + events::async_packet(
            0x31,
            events::mac_field(sensors.last()),
        ).wire()
    }
}

/// The reply to the list command: its own answer with the number of sensors, then
/// one packet for each sensor.
pub open spec fn list_reply(sensors: Seq<Seq<char>>) -> Seq<u8> {
    events::async_packet(0x30, seq![(sensors.len() % 256) as u8]).wire() + list_items(sensors)
}

/// The same reply registered `n` times.
pub open spec fn register_times(t: ReplayView, cmd: u16, resp: Seq<u8>, n: nat) -> ReplayView
    decreases n,
{
    if n == 0 {
        t
    } else {
        register_times(t, cmd, resp, (n - 1) as nat).register(cmd, resp)
    }
}

/// The answer to the list command with the packets that list the sensors.
pub fn build_list_reply(sensors: &[String]) -> (r: Vec<u8>)
    ensures
        r@ == list_reply(text::views(sensors@)),
{
    let count: u8 = (sensors.len() % 256) as u8;
    let mut combined = flag_response(0x30, count);
    let ghost all = text::views(sensors@);
    let ghost head = combined@;
    proof {
        assert(combined@ + Seq::<u8>::empty() =~= combined@);
    }
    let mut i: usize = 0;
    while i < sensors.len()
        invariant
            i <= sensors@.len(),
            all == text::views(sensors@),
            combined@ == head + list_items(all.subrange(0, i as int)),
        decreases sensors@.len() - i,
    {
        let mut payload: Vec<u8> = Vec::new();
        push_mac(&mut payload, sensors[i].as_str());
        proof {
            let w = all.subrange(0, i + 1);
            assert(w.drop_last() =~= all.subrange(0, i as int));
            assert(w.last() == sensors@[i as int]@);
            assert(payload@ =~= events::mac_field(w.last()));
        }
        let item = Packet::new_async(0x31, payload).to_bytes();
        let ghost before = combined@;
        combined.extend_from_slice(item.as_slice());
        proof {
            assert(combined@ =~= before + item@);
            assert(combined@ =~= head + list_items(all.subrange(0, i + 1)));
        }
        i += 1;
    }
    proof {
        assert(all.subrange(0, all.len() as int) =~= all);
    }
    combined
}

impl VirtualDongle {
    /// A dongle with a MAC address and a firmware version, without paired sensors.
    pub fn new(mac: &str, version: &str) -> (r: Self)
        ensures
            r@ == (VirtualDongleView {
                transport: initial_replies(mac@, version@),
                mac: mac@,
                version: version@,
                sensors: Seq::empty(),
            }),
    {
        let mut transport = ReplayTransport::new();
        let one: Vec<u8> = vec![0x01];
        proof {
            assert(one@ =~= seq![0x01]);
        }
        transport.register_response(
            commands::CMD_INQUIRY,
            Packet::new_sync(0x28, one).to_bytes(),
        );
        let token: Vec<u8> = vec![0x31; 16];
        proof {
            assert(token@ =~= Seq::new(16, |i: int| 0x31u8));
        }
        transport.register_response(
            commands::CMD_GET_ENR,
            Packet::new_sync(0x03, token).to_bytes(),
        );
        transport.register_response(
            commands::CMD_GET_MAC,
            Packet::new_sync(0x05, slice_to_vec(mac.as_bytes())).to_bytes(),
        );
        transport.register_response(
            commands::CMD_GET_VERSION,
            Packet::new_async(0x17, slice_to_vec(version.as_bytes())).to_bytes(),
        );
        transport.register_response(
            commands::CMD_FINISH_AUTH,
            Packet::new_async(0x15, Vec::new()).to_bytes(),
        );
        proof {
            assert(transport@ == handshake_replies(mac@, version@));
        }
        transport.register_response(commands::CMD_SET_SCAN, flag_response(0x1D, 1));
        transport.register_response(commands::CMD_SET_SCAN, flag_response(0x1D, 0));
        transport.register_response(commands::CMD_VERIFY_SENSOR, flag_response(0x24, 1));
        transport.register_response(commands::CMD_DELETE_SENSOR, flag_response(0x26, 1));
        transport.register_response(commands::CMD_PLAY_CHIME, flag_response(0x71, 1));
        let r = VirtualDongle {
            transport,
            mac: mac.to_owned(),
            version: version.to_owned(),
            nvram_sensors: Vec::new(),
        };
        proof {
            assert(r@.sensors =~= Seq::empty());
        }
        r
    }

    /// Pairs sensors beforehand: they are counted and listed when the host asks.
    pub fn with_sensors(self, sensors: Vec<String>) -> (r: Self)
        ensures
            r@ == (VirtualDongleView {
                transport: self@.transport.register(
                    commands::CMD_GET_SENSOR_COUNT,
                    flag_reply(0x2F, (sensors@.len() % 256) as u8),
                ).register(
                    commands::CMD_GET_SENSOR_LIST,
                    list_reply(text::views(sensors@)),
                ),
                sensors: text::views(sensors@),
                ..self@
            }),
    {
        let count: u8 = (sensors.len() % 256) as u8;
        let list = build_list_reply(sensors.as_slice());
        let mut dongle = self;
        dongle.transport.register_response(
            commands::CMD_GET_SENSOR_COUNT,
            flag_response(0x2F, count),
        );
        dongle.transport.register_response(commands::CMD_GET_SENSOR_LIST, list);
        dongle.nvram_sensors = sensors;
        dongle
    }

    /// The transport of the dongle.
    pub fn replay_transport(&self) -> (r: &ReplayTransport)
        ensures
            r@ == self@.transport,
    {
        &self.transport
    }

    /// The transport of the dongle, to script it further or to plug it in.
    pub fn replay_transport_mut(&mut self) -> (r: &mut ReplayTransport)
        ensures
            r@ == old(self)@.transport,
            final(self)@ == (VirtualDongleView { transport: final(r)@, ..old(self)@ }),
    {
        &mut self.transport
    }

    /// The MAC address of the dongle.
    pub fn mac(&self) -> (r: &str)
        ensures
            r@ == self@.mac,
    {
        self.mac.as_str()
    }

    /// From now on the dongle is gone.
    pub fn disconnect(&mut self)
        ensures
            final(self)@ == (VirtualDongleView {
                transport: old(self)@.transport.disconnect(),
                ..old(self)@
            }),
    {
        self.transport.disconnect();
    }

    fn register_flag(&mut self, cmd: u16, command_id: u8, flag: u8, count: usize)
        ensures
            final(self)@ == (VirtualDongleView {
                transport: register_times(
                    old(self)@.transport,
                    cmd,
                    flag_reply(command_id, flag),
                    count as nat,
                ),
                ..old(self)@
            }),
    {
        let ghost before = self@;
        let mut i: usize = 0;
        while i < count
            invariant
                i <= count,
                self@ == (VirtualDongleView {
                    transport: register_times(
                        before.transport,
                        cmd,
                        flag_reply(command_id, flag),
                        i as nat,
                    ),
                    ..before
                }),
            decreases count - i,
        {
            self.transport.register_response(cmd, flag_response(command_id, flag));
            i += 1;
        }
    }

    /// Registers more replies to the scan command: first those that say on, then
    /// those that say off.
    pub fn register_extra_scan_responses(&mut self, enable_count: usize, disable_count: usize)
        ensures
            final(self)@ == (VirtualDongleView {
                transport: register_times(
                    register_times(
                        old(self)@.transport,
                        commands::CMD_SET_SCAN,
                        flag_reply(0x1D, 1),
                        enable_count as nat,
                    ),
                    commands::CMD_SET_SCAN,
                    flag_reply(0x1D, 0),
                    disable_count as nat,
                ),
                ..old(self)@
            }),
    {
        self.register_flag(commands::CMD_SET_SCAN, 0x1D, 1, enable_count);
        self.register_flag(commands::CMD_SET_SCAN, 0x1D, 0, disable_count);
    }

    /// Registers more replies to the verify command.
    pub fn register_extra_verify_responses(&mut self, count: usize)
        ensures
            final(self)@ == (VirtualDongleView {
                transport: register_times(
                    old(self)@.transport,
                    commands::CMD_VERIFY_SENSOR,
                    flag_reply(0x24, 1),
                    count as nat,
                ),
                ..old(self)@
            }),
    {
        self.register_flag(commands::CMD_VERIFY_SENSOR, 0x24, 1, count);
    }

    /// Registers more replies to the delete command.
    pub fn register_extra_delete_responses(&mut self, count: usize)
        ensures
            final(self)@ == (VirtualDongleView {
                transport: register_times(
                    old(self)@.transport,
                    commands::CMD_DELETE_SENSOR,
                    flag_reply(0x26, 1),
                    count as nat,
                ),
                ..old(self)@
            }),
    {
        self.register_flag(commands::CMD_DELETE_SENSOR, 0x26, 1, count);
    }

    /// Injects a sensor in pairing mode.
    pub fn inject_scan_event(&mut self, mac: &str, sensor_type: SensorType, version: u8)
        ensures
            final(self)@ == old(self)@.enqueue(
                events::async_packet(
                    0x20,
                    events::scan_payload(mac@, sensor_type, version),
                ).wire(),
            ),
    {
        let pkt = events::scan_packet(mac, sensor_type, version);
        self.transport.enqueue_read(pkt.as_slice());
    }

    /// Injects a state change: 0 is closed or inactive, 1 is open or active. The
    /// signal strength is given without its sign.
    pub fn inject_alarm_event(
        &mut self,
        mac: &str,
        sensor_type: SensorType,
        state: u8,
        battery: u8,
        rssi: u8,
    )
        ensures
            final(self)@ == old(self)@.enqueue(
                events::async_packet(
                    0x19,
                    events::alarm1_payload(
                        bytes::be_bytes(EVENT_TIME),
                        DongleEvent::EVENT_TYPE_ALARM,
                        mac@,
                        sensor_type,
                        events::alarm_bytes(state, battery, rssi),
                    ),
                ).wire(),
            ),
    {
        let time = bytes::u64_to_be(EVENT_TIME);
        let pkt = events::alarm_packet(time.as_slice(), mac, sensor_type, state, battery, rssi);
        self.transport.enqueue_read(pkt.as_slice());
    }

    /// Injects a heartbeat.
    pub fn inject_heartbeat_event(
        &mut self,
        mac: &str,
        sensor_type: SensorType,
        battery: u8,
        rssi: u8,
    )
        ensures
            final(self)@ == old(self)@.enqueue(
                events::async_packet(
                    0x19,
                    events::alarm1_payload(
                        bytes::be_bytes(EVENT_TIME),
                        DongleEvent::EVENT_TYPE_HEARTBEAT,
                        mac@,
                        sensor_type,
                        events::heartbeat_bytes(battery, rssi),
                    ),
                ).wire(),
            ),
    {
        let time = bytes::u64_to_be(EVENT_TIME);
        let pkt = events::heartbeat_packet(time.as_slice(), mac, sensor_type, battery, rssi);
        self.transport.enqueue_read(pkt.as_slice());
    }

    /// Injects temperature and humidity. The temperature comes as whole degrees and
    /// hundredths.
    pub fn inject_climate_event(
        &mut self,
        mac: &str,
        temp_hi: i8,
        temp_lo: u8,
        humidity: u8,
        battery: u8,
        rssi: u8,
    )
        ensures
            final(self)@ == old(self)@.enqueue(
                events::async_packet(
                    0x19,
                    events::alarm1_payload(
                        bytes::be_bytes(EVENT_TIME),
                        DongleEvent::EVENT_TYPE_CLIMATE,
                        mac@,
                        SensorType::ClimateV2,
                        events::climate_bytes(temp_hi, temp_lo, humidity, battery, rssi),
                    ),
                ).wire(),
            ),
    {
        let time = bytes::u64_to_be(EVENT_TIME);
        let pkt = events::climate_packet(
            time.as_slice(),
            mac,
            temp_hi,
            temp_lo,
            humidity,
            battery,
            rssi,
        );
        self.transport.enqueue_read(pkt.as_slice());
    }

    /// Injects a leak report: 0 is dry, 1 is wet.
    pub fn inject_leak_event(
        &mut self,
        mac: &str,
        state: u8,
        probe_available: bool,
        probe_state: u8,
        battery: u8,
        rssi: u8,
    )
        ensures
            final(self)@ == old(self)@.enqueue(
                events::async_packet(
                    0x55,
                    events::alarm2_payload(
                        DongleEvent::EVENT_TYPE_LEAK,
                        mac@,
                        SensorType::LeakV2,
                        events::leak_bytes(state, probe_available, probe_state, battery, rssi),
                    ),
                ).wire(),
            ),
    {
        let pkt = events::leak_packet(mac, state, probe_available, probe_state, battery, rssi);
        self.transport.enqueue_read(pkt.as_slice());
    }
}

/// The reply to a command that only says yes or no.
pub fn flag_response(command_id: u8, flag: u8) -> (r: Vec<u8>)
    ensures
        r@ == flag_reply(command_id, flag),
{
    let payload: Vec<u8> = vec![flag];
    proof {
        assert(payload@ =~= seq![flag]);
    }
    Packet::new_async(command_id, payload).to_bytes()
}

// ---------------------------------------------------------------------------
// Laws
// ---------------------------------------------------------------------------

/// A new dongle answers each command of the handshake with the packet whose command
/// word is one higher.
pub proof fn law_new_dongle_answers_handshake(mac: Seq<char>, version: Seq<char>)
    ensures
        ({
            let t = initial_replies(mac, version);
            &&& t.queued(commands::CMD_INQUIRY) == seq![
                events::sync_packet(0x28, seq![0x01]).wire(),
            ]
            &&& t.queued(commands::CMD_GET_ENR) == seq![
                events::sync_packet(0x03, Seq::new(16, |i: int| 0x31u8)).wire(),
            ]
            &&& t.queued(commands::CMD_GET_MAC) == seq![
                events::sync_packet(0x05, encode_utf8(mac)).wire(),
            ]
            &&& t.queued(commands::CMD_GET_VERSION) == seq![
                events::async_packet(0x17, encode_utf8(version)).wire(),
            ]
            &&& t.queued(commands::CMD_FINISH_AUTH) == seq![
                events::async_packet(0x15, Seq::empty()).wire(),
            ]
            &&& t.queued(commands::CMD_SET_SCAN) == seq![flag_reply(0x1D, 1), flag_reply(0x1D, 0)]
        }),
        events::sync_packet(0x28, seq![0x01]).cmd() == commands::CMD_INQUIRY + 1,
        events::sync_packet(0x03, Seq::new(16, |i: int| 0x31u8)).cmd() == commands::CMD_GET_ENR + 1,
        events::sync_packet(0x05, encode_utf8(mac)).cmd() == commands::CMD_GET_MAC + 1,
        events::async_packet(0x17, encode_utf8(version)).cmd() == commands::CMD_GET_VERSION + 1,
        events::async_packet(0x15, Seq::empty()).cmd() == commands::CMD_FINISH_AUTH + 1,
{
    let t = initial_replies(mac, version);
    assert(t.queued(commands::CMD_INQUIRY) =~= seq![
        events::sync_packet(0x28, seq![0x01]).wire(),
    ]);
    assert(t.queued(commands::CMD_GET_ENR) =~= seq![
        events::sync_packet(0x03, Seq::new(16, |i: int| 0x31u8)).wire(),
    ]);
    assert(t.queued(commands::CMD_GET_MAC) =~= seq![
        events::sync_packet(0x05, encode_utf8(mac)).wire(),
    ]);
    assert(t.queued(commands::CMD_GET_VERSION) =~= seq![
        events::async_packet(0x17, encode_utf8(version)).wire(),
    ]);
    assert(t.queued(commands::CMD_FINISH_AUTH) =~= seq![
        events::async_packet(0x15, Seq::empty()).wire(),
    ]);
    assert(t.queued(commands::CMD_SET_SCAN) =~= seq![flag_reply(0x1D, 1), flag_reply(0x1D, 0)]);
}

/// What a new dongle answers in a step of the handshake.
pub open spec fn handshake_reply(
    step: HandshakeStep,
    mac: Seq<char>,
    version: Seq<char>,
) -> PacketView {
    match step {
        HandshakeStep::Inquiry => events::sync_packet(0x28, seq![0x01]),
        HandshakeStep::KeyExchange => events::sync_packet(0x03, Seq::new(16, |i: int| 0x31u8)),
        HandshakeStep::DongleMac => events::sync_packet(0x05, encode_utf8(mac)),
        HandshakeStep::Version => events::async_packet(0x17, encode_utf8(version)),
        _ => events::async_packet(0x15, Seq::empty()),
    }
}

/// A handshake that is fed the answers of a new dongle unlocks it, and learns the MAC
/// address and the version that the dongle was made with.
pub proof fn law_handshake_with_new_dongle_unlocks(mac: Seq<char>, version: Seq<char>)
    ensures
        HandshakeView::start().answered_all(
            seq![
                handshake_reply(HandshakeStep::Inquiry, mac, version),
                handshake_reply(HandshakeStep::KeyExchange, mac, version),
                handshake_reply(HandshakeStep::DongleMac, mac, version),
                handshake_reply(HandshakeStep::Version, mac, version),
                handshake_reply(HandshakeStep::FinishAuth, mac, version),
            ],
        ) == Ok::<HandshakeView, EngineError>(
            HandshakeView {
                step: HandshakeStep::Done,
                dongle_mac: Some(mac),
                dongle_version: Some(version),
            },
        ),
{
    lemma_texts_come_back(mac, version);
    handshake::law_good_answers_unlock(
        handshake_reply(HandshakeStep::Inquiry, mac, version),
        handshake_reply(HandshakeStep::KeyExchange, mac, version),
        handshake_reply(HandshakeStep::DongleMac, mac, version),
        handshake_reply(HandshakeStep::Version, mac, version),
        handshake_reply(HandshakeStep::FinishAuth, mac, version),
    );
}

proof fn lemma_texts_come_back(mac: Seq<char>, version: Seq<char>)
    ensures
        valid_utf8(encode_utf8(mac)),
        decode_utf8(encode_utf8(mac)) == mac,
        valid_utf8(encode_utf8(version)),
        decode_utf8(encode_utf8(version)) == version,
{
    encode_utf8_valid_utf8(mac);
    encode_utf8_decode_utf8(mac);
    encode_utf8_valid_utf8(version);
    encode_utf8_decode_utf8(version);
}

/// A host writes a request, takes the packet that came back, and acknowledges it where
/// that is called for. Gives the transport after that and the packet, if it answers.
pub open spec fn exchanged(t: ReplayView, q: RequestView) -> (ReplayView, Option<PacketView>) {
    let asked = t.write(q.packet.wire());
    let (p, rest) = stream::take(asked.unread);
    let taken = ReplayView { unread: rest, ..asked };
    match p {
        None => (taken, None),
        Some(x) => (
            if dispatch::wants_ack(x) {
                taken.write(dispatch::ack_of(dispatch::answers(x)).wire())
            } else {
                taken
            },
            if dispatch::answers(x) == q.expected {
                Some(x)
            } else {
                None
            },
        ),
    }
}

/// How far a handshake over a transport comes in a number of exchanges.
pub open spec fn unlocked(t: ReplayView, h: HandshakeView, exchanges: nat) -> Option<HandshakeView>
    decreases exchanges,
{
    match h.step.request() {
        None => Some(h),
        Some(q) => if exchanges == 0 {
            None
        } else {
            match exchanged(t, q) {
                (t2, Some(p)) => match h.answered(p) {
                    Ok(n) => unlocked(t2, n, (exchanges - 1) as nat),
                    Err(_) => None,
                },
                (_, None) => None,
            }
        },
    }
}

/// A transport that has nothing left to read, and an answer for each step from one on.
spec fn ready(t: ReplayView, from: int, mac: Seq<char>, version: Seq<char>) -> bool {
    &&& t.unread.len() == 0
    &&& t.queued(commands::CMD_ASYNC_ACK).len() == 0
    &&& forall|s: HandshakeStep|
        from <= place(s) < 5 ==> t.queued(#[trigger] cmd_of(s)) == seq![
            handshake_reply(s, mac, version).wire(),
        ]
}

spec fn place(s: HandshakeStep) -> int {
    match s {
        HandshakeStep::Inquiry => 0,
        HandshakeStep::KeyExchange => 1,
        HandshakeStep::DongleMac => 2,
        HandshakeStep::Version => 3,
        HandshakeStep::FinishAuth => 4,
        HandshakeStep::Done => 5,
    }
}

spec fn cmd_of(s: HandshakeStep) -> u16 {
    match s {
        HandshakeStep::Inquiry => commands::CMD_INQUIRY,
        HandshakeStep::KeyExchange => commands::CMD_GET_ENR,
        HandshakeStep::DongleMac => commands::CMD_GET_MAC,
        HandshakeStep::Version => commands::CMD_GET_VERSION,
        _ => commands::CMD_FINISH_AUTH,
    }
}

proof fn lemma_step(t: ReplayView, s: HandshakeStep, mac: Seq<char>, version: Seq<char>)
    requires
        !(s is Done),
        ready(t, place(s), mac, version),
        encode_utf8(mac).len() <= 252,
        encode_utf8(version).len() <= 252,
    ensures
        s.request() is Some,
        exchanged(t, s.request()->0).1 == Some(handshake_reply(s, mac, version)),
        ready(exchanged(t, s.request()->0).0, place(s) + 1, mac, version),
{
    let q = s.request()->0;
    let p = handshake_reply(s, mac, version);
    let none = Seq::<u8>::empty();
    assert(q.packet.cmd() == cmd_of(s));
    assert(q.packet.wire() + none =~= q.packet.wire());
    packet::law_parse_of_wire(q.packet, none);
    let asked = t.write(q.packet.wire());
    assert(t.queued(cmd_of(s)) == seq![p.wire()]);
    assert(t.unread + p.wire() =~= p.wire());
    assert(asked.unread == p.wire());
    assert(none + p.wire() + none =~= p.wire());
    stream::law_take_finds_packet(none, p, none);
    let taken = ReplayView { unread: none, ..asked };
    assert(exchanged(t, q).1 == Some(p));
    let ack = dispatch::ack_of(dispatch::answers(p));
    if dispatch::wants_ack(p) {
        assert(ack.wire() + none =~= ack.wire());
        packet::law_parse_of_wire(ack, none);
    }
    let done = exchanged(t, q).0;
    assert(done.unread =~= none);
    assert forall|o: HandshakeStep| place(s) + 1 <= place(o) < 5 implies done.queued(
        #[trigger] cmd_of(o),
    ) == seq![handshake_reply(o, mac, version).wire()] by {
        assert(cmd_of(o) != cmd_of(s));
        assert(t.queued(cmd_of(o)) == seq![handshake_reply(o, mac, version).wire()]);
    }
}

/// A host that does the handshake with a new dongle, packet by packet over the wire,
/// unlocks it in five exchanges and learns the MAC address and the version that the dongle
/// was made with.
pub proof fn law_new_dongle_can_be_unlocked(mac: Seq<char>, version: Seq<char>)
    requires
        encode_utf8(mac).len() <= 252,
        encode_utf8(version).len() <= 252,
    ensures
        unlocked(initial_replies(mac, version), HandshakeView::start(), 5) == Some(
            HandshakeView {
                step: HandshakeStep::Done,
                dongle_mac: Some(mac),
                dongle_version: Some(version),
            },
        ),
{
    let t0 = initial_replies(mac, version);
    law_new_dongle_answers_handshake(mac, version);
    lemma_texts_come_back(mac, version);
    assert forall|s: HandshakeStep| 0 <= place(s) < 5 implies t0.queued(#[trigger] cmd_of(s))
        == seq![handshake_reply(s, mac, version).wire()] by {}
    assert(ready(t0, 0, mac, version));
    let h0 = HandshakeView::start();
    lemma_step(t0, h0.step, mac, version);
    let t1 = exchanged(t0, h0.step.request()->0).0;
    let h1 = h0.answered(handshake_reply(h0.step, mac, version))->Ok_0;
    lemma_step(t1, h1.step, mac, version);
    let t2 = exchanged(t1, h1.step.request()->0).0;
    let h2 = h1.answered(handshake_reply(h1.step, mac, version))->Ok_0;
    lemma_step(t2, h2.step, mac, version);
    let t3 = exchanged(t2, h2.step.request()->0).0;
    let h3 = h2.answered(handshake_reply(h2.step, mac, version))->Ok_0;
    lemma_step(t3, h3.step, mac, version);
    let t4 = exchanged(t3, h3.step.request()->0).0;
    let h4 = h3.answered(handshake_reply(h3.step, mac, version))->Ok_0;
    lemma_step(t4, h4.step, mac, version);
    reveal_with_fuel(unlocked, 6);
}

/// A new dongle answers one request each to bind a sensor, to unbind one and to ring a chime,
/// and says yes to each; it has no answer to anything else.
pub proof fn law_new_dongle_says_yes(mac: Seq<char>, version: Seq<char>)
    ensures
        ({
            let t = initial_replies(mac, version);
            &&& t.queued(0x5323) == seq![events::async_packet(0x24, seq![1u8]).wire()]
            &&& t.queued(0x5325) == seq![events::async_packet(0x26, seq![1u8]).wire()]
            &&& t.queued(0x5370) == seq![events::async_packet(0x71, seq![1u8]).wire()]
            &&& t.queued(0x532E).len() == 0
            &&& t.queued(0x5330).len() == 0
            &&& t.unread.len() == 0
            &&& !t.disconnected
        }),
{
    let t = initial_replies(mac, version);
    assert(t.queued(0x5323) =~= seq![events::async_packet(0x24, seq![1u8]).wire()]);
    assert(t.queued(0x5325) =~= seq![events::async_packet(0x26, seq![1u8]).wire()]);
    assert(t.queued(0x5370) =~= seq![events::async_packet(0x71, seq![1u8]).wire()]);
}

/// Registering a reply several times makes that many of it wait behind what waited before.
pub proof fn law_replies_are_registered_often(
    t: ReplayView,
    cmd: u16,
    resp: Seq<u8>,
    n: nat,
    other: u16,
)
    ensures
        register_times(t, cmd, resp, n).queued(cmd) == t.queued(cmd) + Seq::new(n, |i: int| resp),
        other != cmd ==> register_times(t, cmd, resp, n).queued(other) == t.queued(other),
        register_times(t, cmd, resp, n).unread == t.unread,
    decreases n,
{
    if n > 0 {
        law_replies_are_registered_often(t, cmd, resp, (n - 1) as nat, other);
        assert(register_times(t, cmd, resp, n).queued(cmd) =~= t.queued(cmd) + Seq::new(
            n,
            |i: int| resp,
        ));
    } else {
        assert(t.queued(cmd) + Seq::new(0, |i: int| resp) =~= t.queued(cmd));
    }
}

/// The packet that lists a sensor.
pub open spec fn item_of(mac: Seq<char>) -> PacketView {
    events::async_packet(0x31, events::mac_field(mac))
}

proof fn lemma_take_packet(p: PacketView, rest: Seq<u8>)
    requires
        p.representable(),
    ensures
        stream::take_all(p.wire() + rest).0 == seq![p] + stream::take_all(rest).0,
        stream::take_all(p.wire() + rest).1 == stream::take_all(rest).1,
{
    let none = Seq::<u8>::empty();
    assert(none + p.wire() =~= p.wire());
    stream::law_take_finds_packet(none, p, rest);
}

/// The packets that list sensors, in their order.
pub open spec fn items_of(sensors: Seq<Seq<char>>) -> Seq<PacketView> {
    Seq::new(sensors.len(), |i: int| item_of(sensors[i]))
}

proof fn lemma_last_item(sensors: Seq<Seq<char>>, rest: Seq<u8>, tail: Seq<PacketView>)
    requires
        sensors.len() > 0,
    ensures
        item_of(sensors.last()).representable(),
        list_items(sensors) + rest == list_items(sensors.drop_last()) + (item_of(
            sensors.last(),
        ).wire() + rest),
        items_of(sensors.drop_last()) + (seq![item_of(sensors.last())] + tail) == items_of(sensors)
            + tail,
{
    let d = sensors.drop_last();
    let p = item_of(sensors.last());
    events::law_mac_field_length(sensors.last());
    assert(list_items(sensors) + rest =~= list_items(d) + (p.wire() + rest));
    assert(items_of(sensors) =~= items_of(d).push(p));
    assert(items_of(d) + (seq![p] + tail) =~= items_of(d).push(p) + tail);
}

proof fn lemma_items_are_taken(sensors: Seq<Seq<char>>, rest: Seq<u8>)
    ensures
        stream::take_all(list_items(sensors) + rest).0 == items_of(sensors) + stream::take_all(
            rest,
        ).0,
        stream::take_all(list_items(sensors) + rest).1 == stream::take_all(rest).1,
    decreases sensors.len(),
{
    let tail = stream::take_all(rest).0;
    if sensors.len() == 0 {
        assert(list_items(sensors) + rest =~= rest);
        assert(items_of(sensors) + tail =~= tail);
    } else {
        let p = item_of(sensors.last());
        lemma_last_item(sensors, rest, tail);
        lemma_items_are_taken(sensors.drop_last(), p.wire() + rest);
        lemma_take_packet(p, rest);
    }
}

/// The reply to the list command is the answer to the command itself, which counts the
/// sensors, and behind it one packet for each sensor in their order; each is read as the
/// sensor that it lists.
pub proof fn law_list_is_read(sensors: Seq<Seq<char>>, i: int)
    requires
        0 <= i < sensors.len() <= 255,
        encode_utf8(sensors[i]).len() == 8,
    ensures
        ({
            let (p, left) = stream::take_all(list_reply(sensors));
            &&& p.len() == sensors.len() + 1
            &&& left.len() == 0
            &&& dispatch::answers(p[0]) == 0x5330
            &&& p[0].payload == packet::PayloadView::Bytes(seq![sensors.len() as u8])
            &&& dispatch::listed(p[i + 1]) == Some(sensors[i])
        }),
{
    let none = Seq::<u8>::empty();
    let head = events::async_packet(0x30, seq![(sensors.len() % 256) as u8]);
    let items = list_items(sensors);
    lemma_take_packet(head, items);
    assert(items + none =~= items);
    lemma_items_are_taken(sensors, none);
    lemma_nothing_to_take();
    let p = stream::take_all(list_reply(sensors)).0;
    let list = items_of(sensors);
    assert(list + Seq::<PacketView>::empty() =~= list);
    assert(p =~= seq![head] + list);
    assert(p[i + 1] == item_of(sensors[i]));
    events::law_mac_field_round_trip(sensors[i]);
}

proof fn lemma_nothing_to_take()
    ensures
        stream::take_all(Seq::<u8>::empty()) == (Seq::<PacketView>::empty(), Seq::<u8>::empty()),
{
    assert(stream::first_magic(Seq::<u8>::empty()) is None);
    assert(stream::take(Seq::<u8>::empty()).0 is None);
}

/// Whatever an injected report says of whichever sensor, it is read as one from one and the
/// same moment, the twenty-fourth of May 2024 at 17:03:16.992.
pub proof fn law_injected_reports_have_one_date(
    event_type: u8,
    mac: Seq<char>,
    sensor_type: SensorType,
    rest: Seq<u8>,
)
    requires
        encode_utf8(mac).len() == 8,
    ensures
        ({
            let payload = events::alarm1_payload(
                bytes::be_bytes(EVENT_TIME),
                event_type,
                mac,
                sensor_type,
                rest,
            );
            telemetry::alarm1_event(payload) matches Ok(e) ==> e.timestamp == 1_716_570_196_992
                && e.mac == mac && e.event_type == event_type
        }),
{
    events::law_alarm1_reads_back(EVENT_TIME, event_type, mac, sensor_type, rest);
}

} // verus!
