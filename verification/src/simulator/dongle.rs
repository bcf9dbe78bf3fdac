//! What a simulated dongle holds, and how it answers the bridge.
use crate::clock;
use crate::engine::command::{self, EngineError, RequestView};
use crate::engine::dispatch;
use crate::engine::handshake::{self, HandshakeStep, HandshakeView};
use crate::protocol::bytes;
use crate::protocol::events;
use crate::protocol::packet::{self, commands, Packet, PacketPayload, PacketView, PayloadView};
use crate::protocol::telemetry::{DongleEvent, EventView, SensorType};
use crate::simulator::config::{
    Degrees, GatewayConfig, LoggingConfig, SensorConfig, SimulatedView, VirtualDongleConfig,
};
use crate::text;
use crate::transport::virtual_dongle;
use vstd::prelude::*;
use vstd::slice::*;
use vstd::string::*;
use vstd::utf8::*;

verus! {

// ---------------------------------------------------------------------------
// State
// ---------------------------------------------------------------------------

/// The models of sensors.
pub open spec fn simulated(s: Seq<SensorConfig>) -> Seq<SimulatedView> {
    Seq::new(s.len(), |i: int| s[i]@)
}

/// The MAC addresses of sensors.
pub open spec fn macs_of(s: Seq<SimulatedView>) -> Seq<Seq<char>> {
    Seq::new(s.len(), |i: int| s[i].mac)
}

/// The last of the sensors with a MAC address.
pub open spec fn last_with(s: Seq<SimulatedView>, mac: Seq<char>) -> Option<SimulatedView>
    decreases s.len(),
{
    if s.len() == 0 {
        None
    } else if s.last().mac == mac {
        Some(s.last())
    } else {
        last_with(s.drop_last(), mac)
    }
}

/// The sensors without those that have a MAC address.
pub open spec fn without(s: Seq<SimulatedView>, mac: Seq<char>) -> Seq<SimulatedView>
    decreases s.len(),
{
    if s.len() == 0 {
        Seq::empty()
    } else if s.last().mac == mac {
        without(s.drop_last(), mac)
    } else {
        without(s.drop_last(), mac).push(s.last())
    }
}

/// A simulated dongle.
#[derive(Debug)]
pub struct DongleState {
    pub config: VirtualDongleConfig,
    /// The dongle searches for sensors.
    pub scanning: bool,
}

/// The model of a simulated dongle.
pub struct StateView {
    pub mac: Seq<char>,
    pub version: Seq<char>,
    pub sensors: Seq<SimulatedView>,
    pub scanning: bool,
    pub gateway: GatewayConfig,
    pub logging: LoggingConfig,
}

impl View for DongleState {
    type V = StateView;

    open spec fn view(&self) -> StateView {
        StateView {
            mac: self.config.dongle.mac@,
            version: self.config.dongle.version@,
            sensors: simulated(self.config.sensors@),
            scanning: self.scanning,
            gateway: self.config.gateway,
            logging: self.config.logging,
        }
    }
}

impl DongleState {
    /// A dongle that does not search.
    pub fn new(config: VirtualDongleConfig) -> (r: Self)
        ensures
            r.config == config,
            !r.scanning,
    {
        DongleState { config, scanning: false }
    }

    /// The MAC addresses of the sensors that are bound to the dongle.
    pub fn paired_macs(&self) -> (r: Vec<String>)
        ensures
            text::views(r@) == macs_of(self@.sensors),
    {
        let mut r: Vec<String> = Vec::new();
        let mut i: usize = 0;
        while i < self.config.sensors.len()
            invariant
                i <= self.config.sensors@.len(),
                r@.len() == i,
                forall|j: int| 0 <= j < i ==> (#[trigger] r@[j])@ == self.config.sensors@[j].mac@,
            decreases self.config.sensors@.len() - i,
        {
            r.push(self.config.sensors[i].mac.clone());
            i += 1;
        }
        proof {
            assert(text::views(r@) =~= macs_of(self@.sensors));
        }
        r
    }

    /// A sensor is bound to the dongle.
    pub fn add_sensor(&mut self, sensor: SensorConfig)
        ensures
            final(self)@ == (StateView {
                sensors: old(self)@.sensors.push(sensor@),
                ..old(self)@
            }),
    {
        self.config.sensors.push(sensor);
        proof {
            assert(self@.sensors =~= old(self)@.sensors.push(sensor@));
        }
    }

    /// A sensor is unbound. Says whether it was bound.
    pub fn remove_sensor(&mut self, mac: &str) -> (r: bool)
        ensures
            final(self)@ == (StateView {
                sensors: without(old(self)@.sensors, mac@),
                ..old(self)@
            }),
            r == macs_of(old(self)@.sensors).contains(mac@),
    {
        let ghost all = self@.sensors;
        let ghost macs = macs_of(all);
        let mut i: usize = 0;
        let mut found = false;
        let ghost mut done: int = 0;
        proof {
            assert(without(all.subrange(0, 0), mac@) + all.subrange(0, all.len() as int) =~= all);
        }
        while i < self.config.sensors.len()
            invariant
                0 <= i <= done <= all.len(),
                macs == macs_of(all),
                self.config.sensors@.len() - i == all.len() - done,
                simulated(self.config.sensors@) == without(all.subrange(0, done), mac@)
                    + all.subrange(done, all.len() as int),
                without(all.subrange(0, done), mac@).len() == i,
                found == macs.subrange(0, done).contains(mac@),
                self.config.dongle == old(self).config.dongle,
                self.scanning == old(self).scanning,
                self.config.gateway == old(self).config.gateway,
                self.config.logging == old(self).config.logging,
            decreases self.config.sensors@.len() - i,
        {
            let ghost before = self.config.sensors@;
            let ghost w = all.subrange(0, done + 1);
            let ghost kept = without(all.subrange(0, done), mac@);
            proof {
                assert(w.drop_last() =~= all.subrange(0, done));
                assert(w.last() == all[done]);
                assert(simulated(before)[i as int] == all[done]);
                assert(macs[done] == all[done].mac);
                assert(macs.subrange(0, done + 1).contains(mac@) <==> macs.subrange(
                    0,
                    done,
                ).contains(mac@) || macs[done] == mac@) by {
                    let a = macs.subrange(0, done);
                    let b = macs.subrange(0, done + 1);
                    if a.contains(mac@) {
                        assert(b[a.index_of(mac@)] == mac@);
                    }
                    assert(b[done] == macs[done]);
                    if b.contains(mac@) {
                        let j = b.index_of(mac@);
                        if j < done {
                            assert(a[j] == mac@);
                        }
                    }
                }
            }
            if text::same(self.config.sensors[i].mac.as_str(), mac) {
                self.config.sensors.remove(i);
                found = true;
                proof {
                    let whole = simulated(before);
                    let tail = all.subrange(done, all.len() as int);
                    assert(whole == kept + tail);
                    assert(simulated(self.config.sensors@) =~= whole.remove(i as int));
                    assert((kept + tail).remove(i as int) =~= kept + all.subrange(
                        done + 1,
                        all.len() as int,
                    ));
                    assert(simulated(self.config.sensors@) =~= kept + all.subrange(
                        done + 1,
                        all.len() as int,
                    ));
                }
            } else {
                i += 1;
                proof {
                    assert(simulated(self.config.sensors@) =~= kept.push(all[done])
                        + all.subrange(done + 1, all.len() as int));
                }
            }
            proof {
                done = done + 1;
            }
        }
        proof {
            assert(all.subrange(0, all.len() as int) =~= all);
            assert(macs.subrange(0, macs.len() as int) =~= macs);
            assert(self@.sensors =~= without(all, mac@));
        }
        found
    }

    /// The sensor with a MAC address; of several, the last.
    pub fn get_sensor(&self, mac: &str) -> (r: Option<&SensorConfig>)
        ensures
            match r {
                Some(s) => last_with(self@.sensors, mac@) == Some(s@),
                None => last_with(self@.sensors, mac@) is None,
            },
    {
        let ghost all = self@.sensors;
        let mut i: usize = self.config.sensors.len();
        proof {
            assert(all.subrange(0, all.len() as int) =~= all);
        }
        while i > 0
            invariant
                i <= self.config.sensors@.len(),
                all == simulated(self.config.sensors@),
                last_with(all, mac@) == last_with(all.subrange(0, i as int), mac@),
            decreases i,
        {
            proof {
                let w = all.subrange(0, i as int);
                assert(w.drop_last() =~= all.subrange(0, i - 1));
                assert(w.last() == all[i - 1]);
            }
            i -= 1;
            if text::same(self.config.sensors[i].mac.as_str(), mac) {
                return Some(&self.config.sensors[i]);
            }
        }
        None
    }
}

// ---------------------------------------------------------------------------
// Answers
// ---------------------------------------------------------------------------

/// A run of the same byte.
pub open spec fn run_of(b: u8, n: nat) -> Seq<u8> {
    Seq::new(n, |i: int| b)
}

/// The search that a packet asks for.
pub open spec fn wants_scan(p: PacketView) -> bool {
    match p.payload {
        PayloadView::Ack(_) => false,
        PayloadView::Bytes(b) => b.len() > 0 && b[0] == 1,
    }
}

/// The sensor that a packet asks to unbind: text, which zero bytes may follow.
pub open spec fn deleted_mac(p: PacketView) -> Option<Seq<char>> {
    match p.payload {
        PayloadView::Ack(_) => None,
        PayloadView::Bytes(b) => if valid_utf8(b) {
            Some(text::without_trailing(decode_utf8(b), '\0'))
        } else {
            None
        },
    }
}

impl StateView {
    /// The answer to a packet, if it is one that is answered.
    pub open spec fn reply(self, p: PacketView) -> Option<Seq<u8>> {
        let cmd = p.cmd();
        if cmd == commands::CMD_INQUIRY {
            Some(events::sync_packet(0x28, seq![1u8]).wire())
        } else if cmd == commands::CMD_GET_ENR {
            Some(events::sync_packet(0x03, run_of(0x42, 16)).wire())
        } else if cmd == commands::CMD_GET_MAC {
            Some(events::sync_packet(0x05, encode_utf8(self.mac)).wire())
        } else if cmd == commands::CMD_GET_VERSION {
            Some(events::async_packet(0x17, encode_utf8(self.version)).wire())
        } else if cmd == commands::CMD_FINISH_AUTH {
            Some(events::async_packet(0x15, Seq::empty()).wire())
        } else if cmd == commands::CMD_GET_SENSOR_COUNT {
            Some(virtual_dongle::flag_reply(0x2F, (self.sensors.len() % 256) as u8))
        } else if cmd == commands::CMD_GET_SENSOR_LIST {
            Some(virtual_dongle::list_reply(macs_of(self.sensors)))
        } else if cmd == commands::CMD_SET_SCAN {
            Some(
                virtual_dongle::flag_reply(
                    0x1D,
                    if wants_scan(p) {
                        1
                    } else {
                        0
                    },
                ),
            )
        } else if cmd == commands::CMD_GET_R1 {
            Some(events::async_packet(0x22, run_of(0xAA, 16)).wire())
        } else if cmd == commands::CMD_VERIFY_SENSOR {
            Some(virtual_dongle::flag_reply(0x24, 1))
        } else if cmd == commands::CMD_DELETE_SENSOR {
            Some(virtual_dongle::flag_reply(0x26, 1))
        } else if cmd == commands::CMD_PLAY_CHIME {
            Some(virtual_dongle::flag_reply(0x71, 1))
        } else {
            None
        }
    }

    /// The dongle after a packet.
    pub open spec fn after(self, p: PacketView) -> StateView {
        if p.cmd() == commands::CMD_SET_SCAN {
            StateView { scanning: wants_scan(p), ..self }
        } else if p.cmd() == commands::CMD_DELETE_SENSOR {
            match deleted_mac(p) {
                Some(m) => StateView { sensors: without(self.sensors, m), ..self },
                None => self,
            }
        } else {
            self
        }
    }

    /// The sensors changed with a packet, and the configuration is to be saved.
    pub open spec fn to_be_saved(self, p: PacketView) -> bool {
        p.cmd() == commands::CMD_DELETE_SENSOR && deleted_mac(p) is Some && macs_of(
            self.sensors,
        ).contains(deleted_mac(p)->0)
    }
}

/// What a packet calls for.
#[derive(Debug, PartialEq, Eq)]
pub struct Answer {
    /// What to send back.
    pub response: Option<Vec<u8>>,
    /// The search was turned on or off.
    pub scan_set: bool,
    /// The configuration is to be saved.
    pub save: bool,
}

fn sixteen(b: u8) -> (r: Vec<u8>)
    ensures
        r@ == run_of(b, 16),
{
    let r: Vec<u8> = vec![b; 16];
    proof {
        assert(r@ =~= run_of(b, 16));
    }
    r
}

fn answer(bytes: Vec<u8>) -> (r: Answer)
    ensures
        r.response == Some(bytes),
        !r.scan_set,
        !r.save,
{
    Answer { response: Some(bytes), scan_set: false, save: false }
}

impl DongleState {
    /// Takes a packet from the bridge, and says what it calls for.
    pub fn handle_command(&mut self, p: &Packet) -> (r: Answer)
        ensures
            final(self)@ == old(self)@.after(p@),
            match r.response {
                Some(b) => old(self)@.reply(p@) == Some(b@),
                None => old(self)@.reply(p@) is None,
            },
            r.scan_set == (p@.cmd() == commands::CMD_SET_SCAN),
            r.save == old(self)@.to_be_saved(p@),
    {
        let cmd = p.cmd();
        if cmd == commands::CMD_INQUIRY {
            let one: Vec<u8> = vec![1u8];
            proof {
                assert(one@ =~= seq![1u8]);
            }
            answer(Packet::new_sync(0x28, one).to_bytes())
        } else if cmd == commands::CMD_GET_ENR {
            answer(Packet::new_sync(0x03, sixteen(0x42)).to_bytes())
        } else if cmd == commands::CMD_GET_MAC {
            let mac = slice_to_vec(self.config.dongle.mac.as_str().as_bytes());
            answer(Packet::new_sync(0x05, mac).to_bytes())
        } else if cmd == commands::CMD_GET_VERSION {
            let version = slice_to_vec(self.config.dongle.version.as_str().as_bytes());
            answer(Packet::new_async(0x17, version).to_bytes())
        } else if cmd == commands::CMD_FINISH_AUTH {
            answer(Packet::new_async(0x15, Vec::new()).to_bytes())
        } else if cmd == commands::CMD_GET_SENSOR_COUNT {
            let count: u8 = (self.config.sensors.len() % 256) as u8;
            answer(virtual_dongle::flag_response(0x2F, count))
        } else if cmd == commands::CMD_GET_SENSOR_LIST {
            answer(virtual_dongle::build_list_reply(self.paired_macs().as_slice()))
        } else if cmd == commands::CMD_SET_SCAN {
            let enable: bool = match &p.payload {
                PacketPayload::Ack(_) => false,
                PacketPayload::Bytes(b) => b.len() > 0 && b[0] == 1,
            };
            self.scanning = enable;
            let flag: u8 = if enable {
                1
            } else {
                0
            };
            Answer {
                response: Some(virtual_dongle::flag_response(0x1D, flag)),
                scan_set: true,
                save: false,
            }
        } else if cmd == commands::CMD_GET_R1 {
            answer(Packet::new_async(0x22, sixteen(0xAA)).to_bytes())
        } else if cmd == commands::CMD_VERIFY_SENSOR {
            answer(virtual_dongle::flag_response(0x24, 1))
        } else if cmd == commands::CMD_DELETE_SENSOR {
            let mut save = false;
            match &p.payload {
                PacketPayload::Ack(_) => {},
                PacketPayload::Bytes(b) => {
                    match text::from_utf8(slice_to_vec(b.as_slice())) {
                        Some(s) => {
                            let mac = text::trim_end(s.as_str(), '\0');
                            save = self.remove_sensor(mac.as_str());
                        },
                        None => {},
                    }
                },
            }
            Answer {
                response: Some(virtual_dongle::flag_response(0x26, 1)),
                scan_set: false,
                save,
            }
        } else if cmd == commands::CMD_PLAY_CHIME {
            answer(virtual_dongle::flag_response(0x71, 1))
        } else {
            Answer { response: None, scan_set: false, save: false }
        }
    }
}

// ---------------------------------------------------------------------------
// Events
// ---------------------------------------------------------------------------

/// The time of day in the byte order of the wire. Nothing is claimed of the time.
pub fn now_timestamp_bytes() -> (r: Vec<u8>)
    ensures
        r@.len() == 8,
{
    bytes::u64_to_be(clock::now_ms())
}

/// The bytes of an alarm at a millisecond.
pub open spec fn alarm_event(
    now: u64,
    mac: Seq<char>,
    state: u8,
    battery: u8,
    rssi: u8,
) -> Seq<u8> {
    events::async_packet(
        0x19,
        events::alarm1_payload(
            bytes::be_bytes(now),
            DongleEvent::EVENT_TYPE_ALARM,
            mac,
            SensorType::ContactV2,
            events::alarm_bytes(state, battery, rssi),
        ),
    ).wire()
}

/// The bytes of a heartbeat at a millisecond.
pub open spec fn heartbeat_event(now: u64, mac: Seq<char>, battery: u8, rssi: u8) -> Seq<u8> {
    events::async_packet(
        0x19,
        events::alarm1_payload(
            bytes::be_bytes(now),
            DongleEvent::EVENT_TYPE_HEARTBEAT,
            mac,
            SensorType::ContactV2,
            events::heartbeat_bytes(battery, rssi),
        ),
    ).wire()
}

/// The bytes of a climate report at a millisecond.
pub open spec fn climate_event(
    now: u64,
    mac: Seq<char>,
    t: Degrees,
    humidity: u8,
    battery: u8,
    rssi: u8,
) -> Seq<u8> {
    events::async_packet(
        0x19,
        events::alarm1_payload(
            bytes::be_bytes(now),
            DongleEvent::EVENT_TYPE_CLIMATE,
            mac,
            SensorType::ClimateV2,
            events::climate_bytes(t.whole, t.hundredths, humidity, battery, rssi),
        ),
    ).wire()
}

/// The bytes of a leak report, by a sensor without a probe.
pub open spec fn leak_event(mac: Seq<char>, state: u8, battery: u8, rssi: u8) -> Seq<u8> {
    events::async_packet(
        0x55,
        events::alarm2_payload(
            DongleEvent::EVENT_TYPE_LEAK,
            mac,
            SensorType::LeakV2,
            events::leak_bytes(state, false, 0, battery, rssi),
        ),
    ).wire()
}

/// The bytes of an alarm of a contact or motion sensor.
pub fn build_alarm_packet(now: u64, mac: &str, state: u8, battery: u8, rssi: u8) -> (r: Vec<u8>)
    ensures
        r@ == alarm_event(now, mac@, state, battery, rssi),
{
    events::alarm_packet(
        bytes::u64_to_be(now).as_slice(),
        mac,
        SensorType::ContactV2,
        state,
        battery,
        rssi,
    )
}

/// The bytes of a heartbeat.
pub fn build_heartbeat_packet(now: u64, mac: &str, battery: u8, rssi: u8) -> (r: Vec<u8>)
    ensures
        r@ == heartbeat_event(now, mac@, battery, rssi),
{
    events::heartbeat_packet(
        bytes::u64_to_be(now).as_slice(),
        mac,
        SensorType::ContactV2,
        battery,
        rssi,
    )
}

/// The bytes of a climate report.
pub fn build_climate_packet(
    now: u64,
    mac: &str,
    temperature: Degrees,
    humidity: u8,
    battery: u8,
    rssi: u8,
) -> (r: Vec<u8>)
    ensures
        r@ == climate_event(now, mac@, temperature, humidity, battery, rssi),
{
    events::climate_packet(
        bytes::u64_to_be(now).as_slice(),
        mac,
        temperature.whole,
        temperature.hundredths,
        humidity,
        battery,
        rssi,
    )
}

/// The bytes of a leak report.
pub fn build_leak_packet(mac: &str, state: u8, battery: u8, rssi: u8) -> (r: Vec<u8>)
    ensures
        r@ == leak_event(mac@, state, battery, rssi),
{
    events::leak_packet(mac, state, false, 0, battery, rssi)
}

/// What a sensor reports by itself at a millisecond: a motion sensor motion, a climate or a
/// leak sensor what it measures, any other its state.
pub open spec fn auto_event(s: SimulatedView, now: u64) -> Seq<u8> {
    if s.sensor_type == "motion"@ || s.sensor_type == "motionv2"@ {
        alarm_event(now, s.mac, 1, s.battery, s.rssi)
    } else if s.sensor_type == "climate"@ {
        climate_event(
            now,
            s.mac,
            match s.temperature {
                Some(t) => t,
                None => Degrees { whole: 22, hundredths: 0 },
            },
            match s.humidity {
                Some(h) => h,
                None => 50,
            },
            s.battery,
            s.rssi,
        )
    } else if s.sensor_type == "leak"@ {
        leak_event(s.mac, s.leak_code(), s.battery, s.rssi)
    } else {
        alarm_event(now, s.mac, s.state_code(), s.battery, s.rssi)
    }
}

/// What a sensor reports by itself.
pub fn build_auto_event_packet(sensor: &SensorConfig, now: u64) -> (r: Vec<u8>)
    ensures
        r@ == auto_event(sensor@, now),
{
    let t = sensor.sensor_type.as_str();
    let mac = sensor.mac.as_str();
    if text::same(t, "motion") || text::same(t, "motionv2") {
        build_alarm_packet(now, mac, 1, sensor.battery, sensor.rssi)
    } else if text::same(t, "climate") {
        let temperature = match sensor.temperature {
            Some(x) => x,
            None => Degrees { whole: 22, hundredths: 0 },
        };
        let humidity: u8 = match sensor.humidity {
            Some(h) => h,
            None => 50,
        };
        build_climate_packet(now, mac, temperature, humidity, sensor.battery, sensor.rssi)
    } else if text::same(t, "leak") {
        build_leak_packet(mac, sensor.leak_byte(), sensor.battery, sensor.rssi)
    } else {
        build_alarm_packet(now, mac, sensor.state_byte(), sensor.battery, sensor.rssi)
    }
}

// ---------------------------------------------------------------------------
// Laws
// ---------------------------------------------------------------------------

/// A sensor that was unbound is gone, and no other is.
pub proof fn law_unbound_is_gone(s: Seq<SimulatedView>, mac: Seq<char>, other: Seq<char>)
    ensures
        last_with(without(s, mac), mac) is None,
        other != mac ==> last_with(without(s, mac), other) == last_with(s, other),
    decreases s.len(),
{
    if s.len() > 0 {
        law_unbound_is_gone(s.drop_last(), mac, other);
        let w = without(s.drop_last(), mac);
        assert(w.push(s.last()).drop_last() =~= w);
    }
}

/// A sensor that was bound is found.
pub proof fn law_bound_is_found(s: Seq<SimulatedView>, x: SimulatedView)
    ensures
        last_with(s.push(x), x.mac) == Some(x),
{
    assert(s.push(x).last() == x);
}

/// The dongle ends a search that the bridge asks it to end, and starts one that it asks
/// it to start, and says so.
pub proof fn law_scan_follows_request(s: StateView, enable: bool)
    ensures
        ({
            let p = events::async_packet(
                0x1C,
                seq![
                    if enable {
                        1u8
                    } else {
                        0u8
                    },
                ],
            );
            &&& s.after(p).scanning == enable
            &&& s.reply(p) == Some(
                virtual_dongle::flag_reply(
                    0x1D,
                    if enable {
                        1
                    } else {
                        0
                    },
                ),
            )
        }),
{
}

/// The packet that bytes hold, and nothing else, is the one that was written.
proof fn lemma_written_packet(p: PacketView)
    requires
        p.representable(),
    ensures
        packet::parse_result(p.wire()) == Ok::<(PacketView, int), packet::ParseError>(
            (p, p.wire().len() as int),
        ),
{
    assert(p.wire() + Seq::<u8>::empty() =~= p.wire());
    packet::law_parse_of_wire(p, Seq::empty());
}

/// The dongle answers every request of the bridge with one packet, under the command word
/// that the request waits for.
pub open spec fn is_answered(s: StateView, q: RequestView) -> bool {
    &&& s.reply(q.packet) is Some
    &&& packet::parse_result(s.reply(q.packet)->0) is Ok
    &&& packet::parse_result(s.reply(q.packet)->0)->Ok_0.0.cmd() == q.expected
    &&& packet::parse_result(s.reply(q.packet)->0)->Ok_0.1 == s.reply(q.packet)->0.len()
}

/// Whatever the bridge asks, the simulated dongle answers it: every step of the handshake, the
/// search, and what is asked of a sensor.
pub proof fn law_requests_are_answered(s: StateView, step: HandshakeStep, enable: bool, mac: Seq<char>)
    requires
        encode_utf8(s.mac).len() <= 252,
        encode_utf8(s.version).len() <= 252,
        !(step is Done),
    ensures
        is_answered(s, step.request()->0),
        is_answered(s, command::scan_request(enable)),
        is_answered(s, command::count_request()),
        is_answered(s, command::token_request(mac)),
        is_answered(s, command::verify_request(mac)),
        is_answered(s, command::delete_request(mac)),
        is_answered(s, command::chime_request(mac)),
{
    lemma_written_packet(events::sync_packet(0x28, seq![1u8]));
    lemma_written_packet(events::sync_packet(0x03, run_of(0x42, 16)));
    lemma_written_packet(events::sync_packet(0x05, encode_utf8(s.mac)));
    lemma_written_packet(events::async_packet(0x17, encode_utf8(s.version)));
    lemma_written_packet(events::async_packet(0x15, Seq::empty()));
    lemma_written_packet(events::async_packet(0x2F, seq![(s.sensors.len() % 256) as u8]));
    lemma_written_packet(events::async_packet(0x1D, seq![1u8]));
    lemma_written_packet(events::async_packet(0x1D, seq![0u8]));
    lemma_written_packet(events::async_packet(0x22, run_of(0xAA, 16)));
    lemma_written_packet(events::async_packet(0x24, seq![1u8]));
    lemma_written_packet(events::async_packet(0x26, seq![1u8]));
    lemma_written_packet(events::async_packet(0x71, seq![1u8]));
}

/// What the simulated dongle tells of itself is what it is: its address, its version, the
/// number of its sensors, and the sensors themselves.
pub proof fn law_dongle_tells_the_truth(s: StateView)
    requires
        encode_utf8(s.mac).len() <= 252,
        encode_utf8(s.version).len() <= 252,
    ensures
        ({
            let mac = packet::parse_result(
                s.reply(HandshakeStep::DongleMac.request()->0.packet)->0,
            )->Ok_0.0;
            let version = packet::parse_result(
                s.reply(HandshakeStep::Version.request()->0.packet)->0,
            )->Ok_0.0;
            let count = packet::parse_result(s.reply(command::count_request().packet)->0)->Ok_0.0;
            &&& command::mac_result(mac) == Ok::<Seq<char>, EngineError>(s.mac)
            &&& command::version_result(version) == Ok::<Seq<char>, EngineError>(s.version)
            &&& command::count_result(count) == Ok::<u8, EngineError>(
                (s.sensors.len() % 256) as u8,
            )
        }),
        forall|n: u8| #[trigger]
            s.reply(command::list_request(n).packet) == Some(
                virtual_dongle::list_reply(macs_of(s.sensors)),
            ),
{
    lemma_written_packet(events::sync_packet(0x05, encode_utf8(s.mac)));
    lemma_written_packet(events::async_packet(0x17, encode_utf8(s.version)));
    lemma_written_packet(events::async_packet(0x2F, seq![(s.sensors.len() % 256) as u8]));
    encode_utf8_valid_utf8(s.mac);
    encode_utf8_decode_utf8(s.mac);
    encode_utf8_valid_utf8(s.version);
    encode_utf8_decode_utf8(s.version);
}

/// The handshake of the bridge with a simulated dongle unlocks it.
pub proof fn law_simulated_dongle_unlocks(s: StateView)
    requires
        encode_utf8(s.mac).len() <= 252,
        encode_utf8(s.version).len() <= 252,
    ensures
        HandshakeView::start().answered_all(
            seq![
                packet::parse_result(
                    s.reply(HandshakeStep::Inquiry.request()->0.packet)->0,
                )->Ok_0.0,
                packet::parse_result(
                    s.reply(HandshakeStep::KeyExchange.request()->0.packet)->0,
                )->Ok_0.0,
                packet::parse_result(
                    s.reply(HandshakeStep::DongleMac.request()->0.packet)->0,
                )->Ok_0.0,
                packet::parse_result(
                    s.reply(HandshakeStep::Version.request()->0.packet)->0,
                )->Ok_0.0,
                packet::parse_result(
                    s.reply(HandshakeStep::FinishAuth.request()->0.packet)->0,
                )->Ok_0.0,
            ],
        ) == Ok::<HandshakeView, EngineError>(
            HandshakeView {
                step: HandshakeStep::Done,
                dongle_mac: Some(s.mac),
                dongle_version: Some(s.version),
            },
        ),
{
    let inquiry = events::sync_packet(0x28, seq![1u8]);
    let enr = events::sync_packet(0x03, run_of(0x42, 16));
    let mac = events::sync_packet(0x05, encode_utf8(s.mac));
    let version = events::async_packet(0x17, encode_utf8(s.version));
    let auth = events::async_packet(0x15, Seq::empty());
    lemma_written_packet(inquiry);
    lemma_written_packet(enr);
    lemma_written_packet(mac);
    lemma_written_packet(version);
    lemma_written_packet(auth);
    encode_utf8_valid_utf8(s.mac);
    encode_utf8_decode_utf8(s.mac);
    encode_utf8_valid_utf8(s.version);
    encode_utf8_decode_utf8(s.version);
    handshake::law_good_answers_unlock(inquiry, enr, mac, version, auth);
}

/// A request of the bridge to unbind a sensor unbinds exactly that one, and asks for the
/// configuration to be saved where it was bound; a request to search changes the search alone;
/// no other request changes anything.
pub proof fn law_requests_change_the_dongle(s: StateView, mac: Seq<char>, enable: bool, p: PacketView)
    requires
        mac.len() > 0,
        mac.last() != '\0',
    ensures
        s.after(command::delete_request(mac).packet) == (StateView {
            sensors: without(s.sensors, mac),
            ..s
        }),
        s.to_be_saved(command::delete_request(mac).packet) <==> macs_of(s.sensors).contains(mac),
        s.after(command::scan_request(enable).packet) == (StateView { scanning: enable, ..s }),
        p.cmd() != 0x531C && p.cmd() != 0x5325 ==> s.after(p) == s,
        p.cmd() != 0x5325 ==> !s.to_be_saved(p),
{
    encode_utf8_valid_utf8(mac);
    encode_utf8_decode_utf8(mac);
    text::law_trailing_is_dropped(mac, '\0');
}

/// The event that the bridge reads from bytes that a dongle sends.
pub open spec fn read_by_bridge(bytes: Seq<u8>, dongle: Option<Seq<char>>, now: u64) -> Option<
    EventView,
> {
    match packet::parse_result(bytes) {
        Ok((p, _)) => dispatch::event_of(p, dongle, now),
        Err(_) => None,
    }
}

/// What the simulator sends is read by the bridge as what was meant: the sensor, the time, and
/// each reading in its own place.
pub proof fn law_simulated_reports_are_read(
    now: u64,
    mac: Seq<char>,
    state: u8,
    t: Degrees,
    humidity: u8,
    battery: u8,
    rssi: u8,
    dongle: Option<Seq<char>>,
    later: u64,
)
    requires
        encode_utf8(mac).len() == 8,
        rssi <= 128,
    ensures
        ({
            let e = read_by_bridge(alarm_event(now, mac, state, battery, rssi), dongle, later);
            &&& e is Some
            &&& e->0.mac == mac && e->0.timestamp == now && e->0.dongle_mac == dongle
            &&& e->0.sensor_type is ContactV2
            &&& e->0.data is Alarm
            &&& e->0.data->Alarm_state == state
            &&& e->0.data->Alarm_battery == battery
            &&& e->0.data->Alarm_rssi == -rssi
        }),
        ({
            let e = read_by_bridge(heartbeat_event(now, mac, battery, rssi), dongle, later);
            &&& e is Some
            &&& e->0.mac == mac && e->0.timestamp == now
            &&& e->0.data is Heartbeat
            &&& e->0.data->Heartbeat_battery == battery
            &&& e->0.data->Heartbeat_rssi == -rssi
        }),
        ({
            let e = read_by_bridge(
                climate_event(now, mac, t, humidity, battery, rssi),
                dongle,
                later,
            );
            &&& e is Some
            &&& e->0.mac == mac && e->0.timestamp == now
            &&& e->0.sensor_type is ClimateV2
            &&& e->0.data is Climate
            &&& e->0.data->temperature == t.whole * 100 + t.hundredths
            &&& e->0.data->humidity == humidity
            &&& e->0.data->Climate_battery == battery
            &&& e->0.data->Climate_rssi == -rssi
        }),
        ({
            let e = read_by_bridge(leak_event(mac, state, battery, rssi), dongle, later);
            &&& e is Some
            &&& e->0.mac == mac && e->0.timestamp == later
            &&& e->0.sensor_type is LeakV2
            &&& e->0.data is Leak
            &&& e->0.data->Leak_state == state
            &&& !e->0.data->probe_available
            &&& e->0.data->Leak_battery == battery
            &&& e->0.data->Leak_rssi == -rssi
        }),
{
    let time = bytes::be_bytes(now);
    let alarm = events::alarm_bytes(state, battery, rssi);
    let beat = events::heartbeat_bytes(battery, rssi);
    let climate = events::climate_bytes(t.whole, t.hundredths, humidity, battery, rssi);
    let leak = events::leak_bytes(state, false, 0, battery, rssi);
    events::law_mac_field_length(mac);
    lemma_written_packet(
        events::async_packet(
            0x19,
            events::alarm1_payload(
                time,
                DongleEvent::EVENT_TYPE_ALARM,
                mac,
                SensorType::ContactV2,
                alarm,
            ),
        ),
    );
    lemma_written_packet(
        events::async_packet(
            0x19,
            events::alarm1_payload(
                time,
                DongleEvent::EVENT_TYPE_HEARTBEAT,
                mac,
                SensorType::ContactV2,
                beat,
            ),
        ),
    );
    lemma_written_packet(
        events::async_packet(
            0x19,
            events::alarm1_payload(
                time,
                DongleEvent::EVENT_TYPE_CLIMATE,
                mac,
                SensorType::ClimateV2,
                climate,
            ),
        ),
    );
    lemma_written_packet(
        events::async_packet(
            0x55,
            events::alarm2_payload(DongleEvent::EVENT_TYPE_LEAK, mac, SensorType::LeakV2, leak),
        ),
    );
    events::law_alarm1_reads_back(
        now,
        DongleEvent::EVENT_TYPE_ALARM,
        mac,
        SensorType::ContactV2,
        alarm,
    );
    events::law_alarm1_reads_back(
        now,
        DongleEvent::EVENT_TYPE_HEARTBEAT,
        mac,
        SensorType::ContactV2,
        beat,
    );
    events::law_alarm1_reads_back(
        now,
        DongleEvent::EVENT_TYPE_CLIMATE,
        mac,
        SensorType::ClimateV2,
        climate,
    );
    events::law_alarm2_reads_back(
        DongleEvent::EVENT_TYPE_LEAK,
        mac,
        SensorType::LeakV2,
        leak,
        later,
    );
    events::law_telemetry_reads_back(
        state,
        battery,
        rssi,
        t.whole,
        t.hundredths,
        humidity,
        false,
        0,
    );
}

/// What a sensor reports by itself: a motion sensor that there is motion; a climate sensor its
/// temperature and humidity, or 22 degrees and half of full where it has none; a leak sensor
/// whether it is wet; any other whether it is open. The bridge reads it so.
pub proof fn law_sensors_report_by_themselves(s: SimulatedView, now: u64, later: u64)
    requires
        encode_utf8(s.mac).len() == 8,
        s.rssi <= 128,
    ensures
        ({
            let e = read_by_bridge(auto_event(s, now), None, later);
            let motion = s.sensor_type == "motion"@ || s.sensor_type == "motionv2"@;
            let climate = s.sensor_type == "climate"@;
            let leak = s.sensor_type == "leak"@;
            &&& e is Some
            &&& e->0.mac == s.mac
            &&& motion ==> e->0.data is Alarm && e->0.data->Alarm_state == 1
            &&& climate ==> {
                &&& e->0.data is Climate
                &&& s.temperature matches Some(t) ==> e->0.data->temperature == t.whole * 100
                    + t.hundredths
                &&& s.temperature is None ==> e->0.data->temperature == 2200
                &&& s.humidity matches Some(h) ==> e->0.data->humidity == h
                &&& s.humidity is None ==> e->0.data->humidity == 50
            }
            &&& leak ==> e->0.data is Leak && (e->0.data->Leak_state == 1 <==> s.leak_state == Some(
                "wet"@,
            ) || s.leak_state == Some("1"@))
            &&& !motion && !climate && !leak ==> e->0.data is Alarm && (e->0.data->Alarm_state == 1
                <==> s.state == Some("open"@) || s.state == Some("active"@) || s.state == Some(
                "1"@,
            ))
        }),
{
    reveal_strlit("motion");
    reveal_strlit("motionv2");
    reveal_strlit("climate");
    reveal_strlit("leak");
    assert("motion"@.len() == 6 && "motionv2"@.len() == 8 && "climate"@.len() == 7 && "leak"@.len()
        == 4);
    let t = match s.temperature {
        Some(x) => x,
        None => Degrees { whole: 22, hundredths: 0 },
    };
    let h: u8 = match s.humidity {
        Some(x) => x,
        None => 50,
    };
    law_simulated_reports_are_read(now, s.mac, 1, t, h, s.battery, s.rssi, None, later);
    law_simulated_reports_are_read(
        now,
        s.mac,
        s.state_code(),
        t,
        h,
        s.battery,
        s.rssi,
        None,
        later,
    );
    law_simulated_reports_are_read(
        now,
        s.mac,
        s.leak_code(),
        t,
        h,
        s.battery,
        s.rssi,
        None,
        later,
    );
}

/// The sensor under an address is one that has it, and the last of several; unbinding an
/// address leaves the others in their order.
pub proof fn law_sensor_under_an_address(s: Seq<SimulatedView>, mac: Seq<char>, x: SimulatedView)
    ensures
        last_with(s, mac) is Some <==> macs_of(s).contains(mac),
        last_with(s, mac) matches Some(y) ==> y.mac == mac && s.contains(y),
        x.mac != mac ==> last_with(s.push(x), mac) == last_with(s, mac),
        x.mac != mac ==> without(s.push(x), mac) == without(s, mac).push(x),
        x.mac == mac ==> without(s.push(x), mac) == without(s, mac),
    decreases s.len(),
{
    assert(s.push(x).drop_last() =~= s);
    if s.len() > 0 {
        let d = s.drop_last();
        law_sensor_under_an_address(d, mac, x);
        assert(s[s.len() - 1] == s.last());
        assert(macs_of(s)[s.len() - 1] == s.last().mac);
        if macs_of(d).contains(mac) {
            let i = macs_of(d).index_of(mac);
            assert(macs_of(s)[i] == mac);
        }
        if macs_of(s).contains(mac) && s.last().mac != mac {
            let i = macs_of(s).index_of(mac);
            assert(macs_of(d)[i] == mac);
        }
        match last_with(d, mac) {
            Some(y) => {
                assert(s[d.index_of(y)] == y);
            },
            None => {},
        }
    }
}

} // verus!
