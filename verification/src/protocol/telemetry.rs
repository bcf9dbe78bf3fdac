//! What sensors report: sensor types, telemetry, and the events that carry it.
use crate::clock;
use crate::protocol::bytes::{self, to_negated, to_signed, u64_from_be};
use crate::text;
use vstd::prelude::*;
use vstd::slice::*;
use vstd::string::*;
use vstd::utf8::*;

verus! {

// ---------------------------------------------------------------------------
// Sensor types
// ---------------------------------------------------------------------------

/// The kinds of device that a dongle knows.
#[derive(Debug, Copy, Clone, PartialEq, Eq, Structural)]
pub enum SensorType {
    ContactV1,
    MotionV1,
    LeakV2,
    ClimateV2,
    Chime,
    ContactV2,
    MotionV2,
    Unknown(u8),
}

impl From<u8> for SensorType {
    fn from(val: u8) -> (r: Self) {
        match val {
            0x01 => SensorType::ContactV1,
            0x02 => SensorType::MotionV1,
            0x03 => SensorType::LeakV2,
            0x07 => SensorType::ClimateV2,
            0x0C => SensorType::Chime,
            0x0E => SensorType::ContactV2,
            0x0F => SensorType::MotionV2,
            other => SensorType::Unknown(other),
        }
    }
}

impl vstd::std_specs::convert::FromSpecImpl<u8> for SensorType {
    open spec fn obeys_from_spec() -> bool {
        true
    }

    open spec fn from_spec(val: u8) -> Self {
        SensorType::of_code(val)
    }
}

impl SensorType {
    /// The type that a byte of the protocol stands for.
    pub open spec fn of_code(val: u8) -> SensorType {
        if val == 0x01 {
            SensorType::ContactV1
        } else if val == 0x02 {
            SensorType::MotionV1
        } else if val == 0x03 {
            SensorType::LeakV2
        } else if val == 0x07 {
            SensorType::ClimateV2
        } else if val == 0x0C {
            SensorType::Chime
        } else if val == 0x0E {
            SensorType::ContactV2
        } else if val == 0x0F {
            SensorType::MotionV2
        } else {
            SensorType::Unknown(val)
        }
    }

    /// The byte that stands for the type in the protocol.
    pub open spec fn code(self) -> u8 {
        match self {
            SensorType::ContactV1 => 0x01,
            SensorType::MotionV1 => 0x02,
            SensorType::LeakV2 => 0x03,
            SensorType::ClimateV2 => 0x07,
            SensorType::Chime => 0x0C,
            SensorType::ContactV2 => 0x0E,
            SensorType::MotionV2 => 0x0F,
            SensorType::Unknown(val) => val,
        }
    }

    /// The byte that stands for the type in the protocol.
    pub fn to_u8(&self) -> (r: u8)
        ensures
            r == self.code(),
    {
        match self {
            SensorType::ContactV1 => 0x01,
            SensorType::MotionV1 => 0x02,
            SensorType::LeakV2 => 0x03,
            SensorType::ClimateV2 => 0x07,
            SensorType::Chime => 0x0C,
            SensorType::ContactV2 => 0x0E,
            SensorType::MotionV2 => 0x0F,
            SensorType::Unknown(val) => *val,
        }
    }

    /// The name of the type in state files and state payloads.
    pub open spec fn name(self) -> Seq<char> {
        match self {
            SensorType::ContactV1 => "switch"@,
            SensorType::ContactV2 => "switchv2"@,
            SensorType::MotionV1 => "motion"@,
            SensorType::MotionV2 => "motionv2"@,
            SensorType::LeakV2 => "leak"@,
            SensorType::ClimateV2 => "climate"@,
            SensorType::Chime => "chime"@,
            SensorType::Unknown(_) => "unknown"@,
        }
    }

    /// The name of the type in state files and state payloads.
    pub fn as_str(&self) -> (r: &'static str)
        ensures
            r@ == self.name(),
    {
        match self {
            SensorType::ContactV1 => "switch",
            SensorType::ContactV2 => "switchv2",
            SensorType::MotionV1 => "motion",
            SensorType::MotionV2 => "motionv2",
            SensorType::LeakV2 => "leak",
            SensorType::ClimateV2 => "climate",
            SensorType::Chime => "chime",
            SensorType::Unknown(_) => "unknown",
        }
    }

    /// The model name that Home Assistant shows.
    pub open spec fn model(self) -> Seq<char> {
        match self {
            SensorType::ContactV1 => "Contact Sensor V1"@,
            SensorType::ContactV2 => "Contact Sensor V2"@,
            SensorType::MotionV1 => "Motion Sensor V1"@,
            SensorType::MotionV2 => "Motion Sensor V2"@,
            SensorType::LeakV2 => "Leak Sensor V2"@,
            SensorType::ClimateV2 => "Climate Sensor V2"@,
            SensorType::Chime => "Chime/Alarm V1"@,
            SensorType::Unknown(_) => "Unknown Sensor"@,
        }
    }

    /// The model name that Home Assistant shows.
    pub fn model_str(&self) -> (r: &'static str)
        ensures
            r@ == self.model(),
    {
        match self {
            SensorType::ContactV1 => "Contact Sensor V1",
            SensorType::ContactV2 => "Contact Sensor V2",
            SensorType::MotionV1 => "Motion Sensor V1",
            SensorType::MotionV2 => "Motion Sensor V2",
            SensorType::LeakV2 => "Leak Sensor V2",
            SensorType::ClimateV2 => "Climate Sensor V2",
            SensorType::Chime => "Chime/Alarm V1",
            SensorType::Unknown(_) => "Unknown Sensor",
        }
    }

    /// The type that a name stands for.
    pub open spec fn of_name(s: Seq<char>) -> Option<SensorType> {
        if s == "switch"@ || s == "contact"@ || s == "ContactV1"@ {
            Some(SensorType::ContactV1)
        } else if s == "switchv2"@ || s == "contactv2"@ || s == "ContactV2"@ {
            Some(SensorType::ContactV2)
        } else if s == "motion"@ || s == "MotionV1"@ {
            Some(SensorType::MotionV1)
        } else if s == "motionv2"@ || s == "MotionV2"@ {
            Some(SensorType::MotionV2)
        } else if s == "leak"@ || s == "LeakV2"@ {
            Some(SensorType::LeakV2)
        } else if s == "climate"@ || s == "ClimateV2"@ {
            Some(SensorType::ClimateV2)
        } else if s == "chime"@ || s == "Chime"@ {
            Some(SensorType::Chime)
        } else if s == "unknown"@ {
            Some(SensorType::Unknown(0))
        } else {
            None
        }
    }

    /// Reads a type by its name.
    pub fn from_name(s: &str) -> (r: Result<SensorType, String>)
        ensures
            match r {
                Ok(t) => Self::of_name(s@) == Some(t),
                Err(e) => Self::of_name(s@) is None && e@ == "Unknown sensor type string: "@ + s@,
            },
    {
        if text::same(s, "switch") || text::same(s, "contact") || text::same(s, "ContactV1") {
            Ok(SensorType::ContactV1)
        } else if text::same(s, "switchv2") || text::same(s, "contactv2") || text::same(
            s,
            "ContactV2",
        ) {
            Ok(SensorType::ContactV2)
        } else if text::same(s, "motion") || text::same(s, "MotionV1") {
            Ok(SensorType::MotionV1)
        } else if text::same(s, "motionv2") || text::same(s, "MotionV2") {
            Ok(SensorType::MotionV2)
        } else if text::same(s, "leak") || text::same(s, "LeakV2") {
            Ok(SensorType::LeakV2)
        } else if text::same(s, "climate") || text::same(s, "ClimateV2") {
            Ok(SensorType::ClimateV2)
        } else if text::same(s, "chime") || text::same(s, "Chime") {
            Ok(SensorType::Chime)
        } else if text::same(s, "unknown") {
            Ok(SensorType::Unknown(0))
        } else {
            let mut e = "Unknown sensor type string: ".to_owned();
            e.append(s);
            Err(e)
        }
    }
}

impl std::str::FromStr for SensorType {
    type Err = String;

    fn from_str(s: &str) -> (r: Result<Self, String>)
        ensures
            match r {
                Ok(t) => Self::of_name(s@) == Some(t),
                Err(e) => Self::of_name(s@) is None && e@ == "Unknown sensor type string: "@ + s@,
            },
    {
        SensorType::from_name(s)
    }
}

// ---------------------------------------------------------------------------
// Telemetry
// ---------------------------------------------------------------------------

/// What an event reports of a sensor.
#[derive(Debug, Clone, PartialEq, Eq)]
pub enum TelemetryData {
    /// A regular sign of life.
    Heartbeat {
        /// Raw battery byte, in steps of 1/32 V.
        battery: u8,
        /// Signal strength in dBm, as the dongle measured it.
        rssi: i8,
        /// Temperature of the chip, not of the room.
        die_temperature_c: i8,
        /// Counts state changes.
        event_sequence: u16,
    },
    /// A change of state.
    Alarm { battery: u8, rssi: i8, state: u8, die_temperature_c: i8, event_sequence: u16 },
    /// The number of alarms in each of twelve time slots.
    AlarmData { rssi: i8, ring_buffer: [u8; 12] },
    /// Temperature in hundredths of a degree Celsius, humidity in percent.
    Climate { battery: u8, rssi: i8, temperature: i32, humidity: u8 },
    Leak { battery: u8, rssi: i8, state: u8, probe_state: u8, probe_available: bool },
    /// The bytes behind the header of an event that is not understood.
    UnknownEvent(Vec<u8>),
    /// A sensor in pairing mode.
    Scanned { version: u8 },
    /// A sensor that was bound to a dongle.
    Paired { version: u8 },
    /// A sensor that has been silent for too long.
    Offline,
}

/// The model of telemetry.
pub enum TelemetryView {
    Heartbeat { battery: u8, rssi: i8, die_temperature_c: i8, event_sequence: u16 },
    Alarm { battery: u8, rssi: i8, state: u8, die_temperature_c: i8, event_sequence: u16 },
    AlarmData { rssi: i8, ring_buffer: Seq<u8> },
    Climate { battery: u8, rssi: i8, temperature: i32, humidity: u8 },
    Leak { battery: u8, rssi: i8, state: u8, probe_state: u8, probe_available: bool },
    UnknownEvent(Seq<u8>),
    Scanned { version: u8 },
    Paired { version: u8 },
    Offline,
}

impl View for TelemetryData {
    type V = TelemetryView;

    open spec fn view(&self) -> TelemetryView {
        match self {
            TelemetryData::Heartbeat { battery, rssi, die_temperature_c, event_sequence } =>
                TelemetryView::Heartbeat {
                battery: *battery,
                rssi: *rssi,
                die_temperature_c: *die_temperature_c,
                event_sequence: *event_sequence,
            },
            TelemetryData::Alarm { battery, rssi, state, die_temperature_c, event_sequence } =>
                TelemetryView::Alarm {
                battery: *battery,
                rssi: *rssi,
                state: *state,
                die_temperature_c: *die_temperature_c,
                event_sequence: *event_sequence,
            },
            TelemetryData::AlarmData { rssi, ring_buffer } => TelemetryView::AlarmData {
                rssi: *rssi,
                ring_buffer: ring_buffer@,
            },
            TelemetryData::Climate { battery, rssi, temperature, humidity } =>
                TelemetryView::Climate {
                battery: *battery,
                rssi: *rssi,
                temperature: *temperature,
                humidity: *humidity,
            },
            TelemetryData::Leak { battery, rssi, state, probe_state, probe_available } =>
                TelemetryView::Leak {
                battery: *battery,
                rssi: *rssi,
                state: *state,
                probe_state: *probe_state,
                probe_available: *probe_available,
            },
            TelemetryData::UnknownEvent(b) => TelemetryView::UnknownEvent(b@),
            TelemetryData::Scanned { version } => TelemetryView::Scanned { version: *version },
            TelemetryData::Paired { version } => TelemetryView::Paired { version: *version },
            TelemetryData::Offline => TelemetryView::Offline,
        }
    }
}

/// An event that a dongle reports of a sensor.
#[derive(Debug, Clone, PartialEq, Eq)]
pub struct DongleEvent {
    /// The sensor.
    pub mac: String,
    /// Milliseconds since the Unix epoch.
    pub timestamp: u64,
    pub sensor_type: SensorType,
    pub event_type: u8,
    pub data: TelemetryData,
    /// The dongle that the event came through, where that is known.
    pub dongle_mac: Option<String>,
}

/// The model of an event.
pub struct EventView {
    pub mac: Seq<char>,
    pub timestamp: u64,
    pub sensor_type: SensorType,
    pub event_type: u8,
    pub data: TelemetryView,
    pub dongle_mac: Option<Seq<char>>,
}

impl View for DongleEvent {
    type V = EventView;

    open spec fn view(&self) -> EventView {
        EventView {
            mac: self.mac@,
            timestamp: self.timestamp,
            sensor_type: self.sensor_type,
            event_type: self.event_type,
            data: self.data@,
            dongle_mac: text::option_view(self.dongle_mac),
        }
    }
}

// ---------------------------------------------------------------------------
// The payloads of notification packets
// ---------------------------------------------------------------------------

/// A MAC address is eight bytes of text.
pub open spec fn mac_at(payload: Seq<u8>, at: int) -> Seq<u8> {
    payload.subrange(at, at + 8)
}

/// What a scan notification says: event type, MAC, sensor type and firmware version.
pub open spec fn scan_event(payload: Seq<u8>, now: u64) -> Result<EventView, &'static str> {
    if payload.len() < 11 {
        Err("Scan payload too short (need 11 bytes: event_type + mac[8] + type + version)")
    } else if !valid_utf8(mac_at(payload, 1)) {
        Err("Invalid MAC characters (non-UTF8)")
    } else {
        Ok(
            EventView {
                mac: decode_utf8(mac_at(payload, 1)),
                timestamp: now,
                sensor_type: SensorType::of_code(payload[9]),
                event_type: payload[0],
                data: TelemetryView::Scanned { version: payload[10] },
                dongle_mac: None,
            },
        )
    }
}

/// The telemetry behind the header of an alarm notification.
pub open spec fn alarm1_data(event_type: u8, rest: Seq<u8>) -> Result<TelemetryView, &'static str> {
    if event_type == DongleEvent::EVENT_TYPE_HEARTBEAT {
        if rest.len() < 8 {
            Err("Heartbeat payload too short")
        } else {
            Ok(
                TelemetryView::Heartbeat {
                    battery: rest[1],
                    rssi: bytes::negated(rest[7]),
                    die_temperature_c: bytes::signed(rest[0]),
                    event_sequence: (rest[5] * 256 + rest[6]) as u16,
                },
            )
        }
    } else if event_type == DongleEvent::EVENT_TYPE_ALARM {
        if rest.len() < 8 {
            Err("Alarm payload too short")
        } else {
            Ok(
                TelemetryView::Alarm {
                    battery: rest[1],
                    rssi: bytes::negated(rest[7]),
                    state: rest[4],
                    die_temperature_c: bytes::signed(rest[0]),
                    event_sequence: (rest[5] * 256 + rest[6]) as u16,
                },
            )
        }
    } else if event_type == DongleEvent::EVENT_TYPE_ALARM_DATA {
        if rest.len() < 12 {
            Err("AlarmData payload too short")
        } else {
            Ok(
                TelemetryView::AlarmData {
                    rssi: if rest.len() > 12 {
                        bytes::negated(rest.last())
                    } else {
                        0
                    },
                    ring_buffer: rest.subrange(0, 12),
                },
            )
        }
    } else if event_type == DongleEvent::EVENT_TYPE_CLIMATE {
        if rest.len() < 10 {
            Err("Climate payload too short")
        } else {
            Ok(
                TelemetryView::Climate {
                    battery: rest[1],
                    rssi: bytes::negated(rest[9]),
                    temperature: (bytes::signed(rest[4]) * 100 + rest[5]) as i32,
                    humidity: rest[6],
                },
            )
        }
    } else {
        Ok(TelemetryView::UnknownEvent(rest))
    }
}

/// What an alarm notification says: time, event type, MAC, sensor type, telemetry.
pub open spec fn alarm1_event(payload: Seq<u8>) -> Result<EventView, &'static str> {
    if payload.len() < 18 {
        Err("Alarm1 payload too short for header")
    } else if !valid_utf8(mac_at(payload, 9)) {
        Err("Invalid MAC characters (non-UTF8)")
    } else {
        match alarm1_data(payload[8], payload.subrange(18, payload.len() as int)) {
            Err(e) => Err(e),
            Ok(data) => Ok(
                EventView {
                    mac: decode_utf8(mac_at(payload, 9)),
                    timestamp: bytes::be_value(payload.subrange(0, 8)) as u64,
                    sensor_type: SensorType::of_code(payload[17]),
                    event_type: payload[8],
                    data,
                    dongle_mac: None,
                },
            ),
        }
    }
}

/// The telemetry behind the header of an extended alarm notification.
pub open spec fn alarm2_data(event_type: u8, rest: Seq<u8>) -> Result<TelemetryView, &'static str> {
    if event_type == DongleEvent::EVENT_TYPE_LEAK {
        if rest.len() < 11 {
            Err("Leak payload too short")
        } else {
            Ok(
                TelemetryView::Leak {
                    battery: rest[2],
                    rssi: bytes::negated(rest[10]),
                    state: rest[5],
                    probe_state: rest[6],
                    probe_available: rest[7] == 1,
                },
            )
        }
    } else {
        Ok(TelemetryView::UnknownEvent(rest))
    }
}

/// What an extended alarm notification says: event type, MAC, sensor type, telemetry.
pub open spec fn alarm2_event(payload: Seq<u8>, now: u64) -> Result<EventView, &'static str> {
    if payload.len() < 10 {
        Err("Alarm2 payload too short for header")
    } else if !valid_utf8(mac_at(payload, 1)) {
        Err("Invalid MAC characters (non-UTF8)")
    } else {
        match alarm2_data(payload[0], payload.subrange(10, payload.len() as int)) {
            Err(e) => Err(e),
            Ok(data) => Ok(
                EventView {
                    mac: decode_utf8(mac_at(payload, 1)),
                    timestamp: now,
                    sensor_type: SensorType::of_code(payload[9]),
                    event_type: payload[0],
                    data,
                    dongle_mac: None,
                },
            ),
        }
    }
}

impl DongleEvent {
    pub const EVENT_TYPE_HEARTBEAT: u8 = 0xA1;

    pub const EVENT_TYPE_ALARM: u8 = 0xA2;

    /// The alarm history of a motion sensor.
    pub const EVENT_TYPE_ALARM_DATA: u8 = 0xAB;

    pub const EVENT_TYPE_CLIMATE: u8 = 0xE8;

    pub const EVENT_TYPE_LEAK: u8 = 0xEA;

    // Known to the firmware, with contents that are not understood.
    pub const EVENT_TYPE_EXTENDED_DATA: u8 = 0xD1;

    pub const EVENT_TYPE_EXTENDED_EVENT: u8 = 0xE1;

    pub const EVENT_TYPE_EXTENDED_STATUS: u8 = 0xE3;

    /// Reads the payload of a scan notification that came in at the time `now`.
    pub fn parse_scan_at(payload: &[u8], now: u64) -> (r: Result<Self, &'static str>)
        ensures
            match r {
                Ok(e) => scan_event(payload@, now) == Ok::<EventView, &'static str>(e@),
                Err(m) => scan_event(payload@, now) == Err::<EventView, &'static str>(m),
            },
    {
        if payload.len() < 11 {
            return Err(
                "Scan payload too short (need 11 bytes: event_type + mac[8] + type + version)",
            );
        }
        match text::from_utf8(slice_to_vec(slice_subrange(payload, 1, 9))) {
            None => Err("Invalid MAC characters (non-UTF8)"),
            Some(mac) => Ok(
                DongleEvent {
                    mac,
                    timestamp: now,
                    sensor_type: SensorType::from(payload[9]),
                    event_type: payload[0],
                    data: TelemetryData::Scanned { version: payload[10] },
                    dongle_mac: None,
                },
            ),
        }
    }

    /// Reads the payload of a scan notification. The event is dated with the
    /// current time, of which nothing is known.
    pub fn parse_scan(payload: &[u8]) -> (r: Result<Self, &'static str>)
        ensures
            match r {
                Ok(e) => scan_event(payload@, e.timestamp) == Ok::<EventView, &'static str>(e@),
                Err(m) => scan_event(payload@, 0) == Err::<EventView, &'static str>(m),
            },
    {
        Self::parse_scan_at(payload, clock::now_ms())
    }

    /// Reads the telemetry behind the header of an alarm notification.
    fn parse_alarm1_data(event_type: u8, rest: &[u8]) -> (r: Result<TelemetryData, &'static str>)
        ensures
            match r {
                Ok(d) => alarm1_data(event_type, rest@) == Ok::<TelemetryView, &'static str>(d@),
                Err(m) => alarm1_data(event_type, rest@) == Err::<TelemetryView, &'static str>(m),
            },
    {
        if event_type == Self::EVENT_TYPE_HEARTBEAT {
            if rest.len() < 8 {
                return Err("Heartbeat payload too short");
            }
            Ok(
                TelemetryData::Heartbeat {
                    battery: rest[1],
                    rssi: to_negated(rest[7]),
                    die_temperature_c: to_signed(rest[0]),
                    event_sequence: rest[5] as u16 * 256 + rest[6] as u16,
                },
            )
        } else if event_type == Self::EVENT_TYPE_ALARM {
            if rest.len() < 8 {
                return Err("Alarm payload too short");
            }
            Ok(
                TelemetryData::Alarm {
                    battery: rest[1],
                    rssi: to_negated(rest[7]),
                    state: rest[4],
                    die_temperature_c: to_signed(rest[0]),
                    event_sequence: rest[5] as u16 * 256 + rest[6] as u16,
                },
            )
        } else if event_type == Self::EVENT_TYPE_ALARM_DATA {
            if rest.len() < 12 {
                return Err("AlarmData payload too short");
            }
            let ring_buffer: [u8; 12] = [
                rest[0],
                rest[1],
                rest[2],
                rest[3],
                rest[4],
                rest[5],
                rest[6],
                rest[7],
                rest[8],
                rest[9],
                rest[10],
                rest[11],
            ];
            proof {
                assert(ring_buffer@ =~= rest@.subrange(0, 12));
            }
            let rssi: i8 = if rest.len() > 12 {
                to_negated(rest[rest.len() - 1])
            } else {
                0
            };
            Ok(TelemetryData::AlarmData { rssi, ring_buffer })
        } else if event_type == Self::EVENT_TYPE_CLIMATE {
            if rest.len() < 10 {
                return Err("Climate payload too short");
            }
            Ok(
                TelemetryData::Climate {
                    battery: rest[1],
                    rssi: to_negated(rest[9]),
                    temperature: to_signed(rest[4]) as i32 * 100 + rest[5] as i32,
                    humidity: rest[6],
                },
            )
        } else {
            Ok(TelemetryData::UnknownEvent(slice_to_vec(rest)))
        }
    }

    /// Reads the payload of an alarm notification, which carries its own time.
    pub fn parse_alarm1(payload: &[u8]) -> (r: Result<Self, &'static str>)
        ensures
            match r {
                Ok(e) => alarm1_event(payload@) == Ok::<EventView, &'static str>(e@),
                Err(m) => alarm1_event(payload@) == Err::<EventView, &'static str>(m),
            },
    {
        if payload.len() < 18 {
            return Err("Alarm1 payload too short for header");
        }
        let timestamp = u64_from_be(slice_subrange(payload, 0, 8));
        let event_type = payload[8];
        let mac = match text::from_utf8(slice_to_vec(slice_subrange(payload, 9, 17))) {
            None => {
                return Err("Invalid MAC characters (non-UTF8)");
            },
            Some(mac) => mac,
        };
        let sensor_type = SensorType::from(payload[17]);
        let rest = slice_subrange(payload, 18, payload.len());
        match Self::parse_alarm1_data(event_type, rest) {
            Err(e) => Err(e),
            Ok(data) => Ok(
                DongleEvent { mac, timestamp, sensor_type, event_type, data, dongle_mac: None },
            ),
        }
    }

    /// Reads the payload of an extended alarm notification that came in at the time `now`.
    pub fn parse_alarm2_at(payload: &[u8], now: u64) -> (r: Result<Self, &'static str>)
        ensures
            match r {
                Ok(e) => alarm2_event(payload@, now) == Ok::<EventView, &'static str>(e@),
                Err(m) => alarm2_event(payload@, now) == Err::<EventView, &'static str>(m),
            },
    {
        if payload.len() < 10 {
            return Err("Alarm2 payload too short for header");
        }
        let event_type = payload[0];
        let mac = match text::from_utf8(slice_to_vec(slice_subrange(payload, 1, 9))) {
            None => {
                return Err("Invalid MAC characters (non-UTF8)");
            },
            Some(mac) => mac,
        };
        let sensor_type = SensorType::from(payload[9]);
        let rest = slice_subrange(payload, 10, payload.len());
        let data = if event_type == Self::EVENT_TYPE_LEAK {
            if rest.len() < 11 {
                return Err("Leak payload too short");
            }
            TelemetryData::Leak {
                battery: rest[2],
                rssi: to_negated(rest[10]),
                state: rest[5],
                probe_state: rest[6],
                probe_available: rest[7] == 1,
            }
        } else {
            TelemetryData::UnknownEvent(slice_to_vec(rest))
        };
        Ok(DongleEvent { mac, timestamp: now, sensor_type, event_type, data, dongle_mac: None })
    }

    /// Reads the payload of an extended alarm notification. The event is dated with
    /// the current time, of which nothing is known.
    pub fn parse_alarm2(payload: &[u8]) -> (r: Result<Self, &'static str>)
        ensures
            match r {
                Ok(e) => alarm2_event(payload@, e.timestamp) == Ok::<EventView, &'static str>(e@),
                Err(m) => alarm2_event(payload@, 0) == Err::<EventView, &'static str>(m),
            },
    {
        Self::parse_alarm2_at(payload, clock::now_ms())
    }

    /// The event that says that a sensor has been silent for too long.
    pub fn offline(mac: String, sensor_type: SensorType, now: u64) -> (r: Self)
        ensures
            r@ == (EventView {
                mac: mac@,
                timestamp: now,
                sensor_type,
                event_type: 0,
                data: TelemetryView::Offline,
                dongle_mac: None,
            }),
    {
        DongleEvent {
            mac,
            timestamp: now,
            sensor_type,
            event_type: 0,
            data: TelemetryData::Offline,
            dongle_mac: None,
        }
    }
}

// ---------------------------------------------------------------------------
// Laws
// ---------------------------------------------------------------------------

/// Every byte names a type that has that byte, and a known type comes back from its byte.
pub proof fn law_sensor_codes(val: u8, t: SensorType)
    ensures
        SensorType::of_code(val).code() == val,
        !(t is Unknown) ==> SensorType::of_code(t.code()) == t,
{
}

/// A known type comes back from its name; so does the unknown one, without its byte.
pub proof fn law_sensor_names(t: SensorType)
    ensures
        SensorType::of_name(t.name()) == Some(
            if t is Unknown {
                SensorType::Unknown(0)
            } else {
                t
            },
        ),
{
    reveal_strlit("switch");
    reveal_strlit("contact");
    reveal_strlit("ContactV1");
    reveal_strlit("switchv2");
    reveal_strlit("contactv2");
    reveal_strlit("ContactV2");
    reveal_strlit("motion");
    reveal_strlit("MotionV1");
    reveal_strlit("motionv2");
    reveal_strlit("MotionV2");
    reveal_strlit("leak");
    reveal_strlit("LeakV2");
    reveal_strlit("climate");
    reveal_strlit("ClimateV2");
    reveal_strlit("chime");
    reveal_strlit("Chime");
    reveal_strlit("unknown");
    assert("switch"@[0] == 's' && "contact"@[0] == 'c' && "ContactV1"@[0] == 'C');
    assert("switchv2"@[0] == 's' && "contactv2"@[0] == 'c' && "ContactV2"@[0] == 'C');
    assert("motion"@[0] == 'm' && "MotionV1"@[0] == 'M');
    assert("motionv2"@[0] == 'm' && "MotionV2"@[0] == 'M');
    assert("leak"@[0] == 'l' && "LeakV2"@[0] == 'L');
    assert("climate"@[0] == 'c' && "ClimateV2"@[0] == 'C');
    assert("contact"@[1] == 'o' && "climate"@[1] == 'l');
    assert("chime"@[0] == 'c' && "Chime"@[0] == 'C' && "unknown"@[0] == 'u');
    assert("switch"@.len() == 6 && "switchv2"@.len() == 8);
    assert("motion"@.len() == 6 && "motionv2"@.len() == 8);
    assert("contact"@.len() == 7 && "contactv2"@.len() == 9);
    assert("climate"@.len() == 7 && "chime"@.len() == 5);
}

/// Whether a scan notification is understood does not depend on when it came in.
pub proof fn law_scan_time_only_dates(payload: Seq<u8>, a: u64, b: u64)
    ensures
        match scan_event(payload, a) {
            Ok(e) => scan_event(payload, b) == Ok::<EventView, &'static str>(
                EventView { timestamp: b, ..e },
            ),
            Err(m) => scan_event(payload, b) == Err::<EventView, &'static str>(m),
        },
{
}

/// Which byte stands for which kind of device.
pub proof fn law_sensor_bytes(val: u8)
    ensures
        SensorType::of_code(val) is ContactV1 <==> val == 0x01,
        SensorType::of_code(val) is MotionV1 <==> val == 0x02,
        SensorType::of_code(val) is LeakV2 <==> val == 0x03,
        SensorType::of_code(val) is ClimateV2 <==> val == 0x07,
        SensorType::of_code(val) is Chime <==> val == 0x0C,
        SensorType::of_code(val) is ContactV2 <==> val == 0x0E,
        SensorType::of_code(val) is MotionV2 <==> val == 0x0F,
{
}

proof fn lemma_type_names()
    ensures
        "switch"@.len() == 6 && "switch"@[0] == 's',
        "motion"@.len() == 6 && "motion"@[0] == 'm',
        "LeakV2"@.len() == 6 && "LeakV2"@[0] == 'L',
        "contact"@.len() == 7 && "contact"@[0] == 'c' && "contact"@[1] == 'o',
        "climate"@.len() == 7 && "climate"@[0] == 'c' && "climate"@[1] == 'l',
        "unknown"@.len() == 7 && "unknown"@[0] == 'u',
        "switchv2"@.len() == 8 && "switchv2"@[0] == 's' && "switchv2"@[7] == '2',
        "motionv2"@.len() == 8 && "motionv2"@[0] == 'm' && "motionv2"@[7] == '2',
        "MotionV1"@.len() == 8 && "MotionV1"@[0] == 'M' && "MotionV1"@[7] == '1',
        "MotionV2"@.len() == 8 && "MotionV2"@[0] == 'M' && "MotionV2"@[7] == '2',
        "ContactV1"@.len() == 9 && "ContactV1"@[0] == 'C' && "ContactV1"@[8] == '1' && "ContactV1"@[1]
            == 'o',
        "ContactV2"@.len() == 9 && "ContactV2"@[0] == 'C' && "ContactV2"@[8] == '2' && "ContactV2"@[1]
            == 'o',
        "ClimateV2"@.len() == 9 && "ClimateV2"@[0] == 'C' && "ClimateV2"@[1] == 'l',
        "contactv2"@.len() == 9 && "contactv2"@[0] == 'c',
        "leak"@.len() == 4,
        "chime"@.len() == 5 && "chime"@[0] == 'c',
        "Chime"@.len() == 5 && "Chime"@[0] == 'C',
{
    reveal_strlit("switch");
    reveal_strlit("contact");
    reveal_strlit("ContactV1");
    reveal_strlit("switchv2");
    reveal_strlit("contactv2");
    reveal_strlit("ContactV2");
    reveal_strlit("motion");
    reveal_strlit("MotionV1");
    reveal_strlit("motionv2");
    reveal_strlit("MotionV2");
    reveal_strlit("leak");
    reveal_strlit("LeakV2");
    reveal_strlit("climate");
    reveal_strlit("ClimateV2");
    reveal_strlit("chime");
    reveal_strlit("Chime");
    reveal_strlit("unknown");
}

/// Which names stand for which kind of device; any other name stands for none.
pub proof fn law_names_of_types(s: Seq<char>)
    ensures
        SensorType::of_name(s) == Some(SensorType::ContactV1) <==> s == "switch"@ || s
            == "contact"@ || s == "ContactV1"@,
        SensorType::of_name(s) == Some(SensorType::ContactV2) <==> s == "switchv2"@ || s
            == "contactv2"@ || s == "ContactV2"@,
        SensorType::of_name(s) == Some(SensorType::MotionV1) <==> s == "motion"@ || s
            == "MotionV1"@,
        SensorType::of_name(s) == Some(SensorType::MotionV2) <==> s == "motionv2"@ || s
            == "MotionV2"@,
        SensorType::of_name(s) == Some(SensorType::LeakV2) <==> s == "leak"@ || s == "LeakV2"@,
        SensorType::of_name(s) == Some(SensorType::ClimateV2) <==> s == "climate"@ || s
            == "ClimateV2"@,
        SensorType::of_name(s) == Some(SensorType::Chime) <==> s == "chime"@ || s == "Chime"@,
        SensorType::of_name(s) == Some(SensorType::Unknown(0)) <==> s == "unknown"@,
        SensorType::of_name(s) is Some ==> SensorType::of_name(s)->0 is Unknown
            ==> SensorType::of_name(s)->0 == SensorType::Unknown(0),
{
    lemma_type_names();
}

/// The model that Home Assistant shows names the kind of the device and its version.
pub proof fn law_models(t: SensorType)
    ensures
        t is ContactV1 ==> t.model() == "Contact Sensor V1"@ && t.name() == "switch"@,
        t is ContactV2 ==> t.model() == "Contact Sensor V2"@ && t.name() == "switchv2"@,
        t is MotionV1 ==> t.model() == "Motion Sensor V1"@ && t.name() == "motion"@,
        t is MotionV2 ==> t.model() == "Motion Sensor V2"@ && t.name() == "motionv2"@,
        t is LeakV2 ==> t.model() == "Leak Sensor V2"@ && t.name() == "leak"@,
        t is ClimateV2 ==> t.model() == "Climate Sensor V2"@ && t.name() == "climate"@,
        t is Chime ==> t.model() == "Chime/Alarm V1"@ && t.name() == "chime"@,
        t is Unknown ==> t.model() == "Unknown Sensor"@ && t.name() == "unknown"@,
{
}

/// Where an alarm notification keeps its header: eight bytes of time with the highest first,
/// the event type, eight bytes of text that are the address, and the kind of device.
pub proof fn law_alarm_header(p: Seq<u8>)
    requires
        alarm1_event(p) is Ok,
    ensures
        ({
            let e = alarm1_event(p)->Ok_0;
            &&& p.len() >= 18
            &&& e.timestamp == p[0] * 0x100_0000_0000_0000 + p[1] * 0x1_0000_0000_0000 + p[2]
                * 0x100_0000_0000 + p[3] * 0x1_0000_0000 + p[4] * 0x100_0000 + p[5] * 0x1_0000
                + p[6] * 0x100 + p[7]
            &&& e.event_type == p[8]
            &&& encode_utf8(e.mac) == p.subrange(9, 17)
            &&& e.sensor_type.code() == p[17]
            &&& e.sensor_type == SensorType::of_code(p[17])
            &&& e.dongle_mac is None
            &&& p[8] == 0xA1 <==> e.data is Heartbeat
            &&& p[8] == 0xA2 <==> e.data is Alarm
            &&& p[8] == 0xAB <==> e.data is AlarmData
            &&& p[8] == 0xE8 <==> e.data is Climate
        }),
{
    let t = p.subrange(0, 8);
    bytes::law_highest_byte_first(t, 0);
    bytes::lemma_be_value_fits(t);
    decode_utf8_encode_utf8(mac_at(p, 9));
    law_sensor_codes(p[17], SensorType::Chime);
}

/// Where an alarm keeps its telemetry: the chip temperature at byte 18, the battery at 19,
/// the state at 22, the sequence number at 23 and 24, the signal strength at 25. A heartbeat
/// is laid out alike, without a state.
pub proof fn law_alarm_bytes(p: Seq<u8>)
    requires
        p.len() >= 26,
        valid_utf8(p.subrange(9, 17)),
        p[8] == 0xA1 || p[8] == 0xA2,
    ensures
        alarm1_event(p) is Ok,
        p[8] == 0xA2 ==> alarm1_event(p)->Ok_0.data == (TelemetryView::Alarm {
            battery: p[19],
            rssi: if p[25] > 128 {
                -128i8
            } else {
                (0 - p[25]) as i8
            },
            state: p[22],
            die_temperature_c: if p[18] < 128 {
                p[18] as i8
            } else {
                (p[18] - 256) as i8
            },
            event_sequence: (p[23] * 256 + p[24]) as u16,
        }),
        p[8] == 0xA1 ==> alarm1_event(p)->Ok_0.data == (TelemetryView::Heartbeat {
            battery: p[19],
            rssi: if p[25] > 128 {
                -128i8
            } else {
                (0 - p[25]) as i8
            },
            die_temperature_c: if p[18] < 128 {
                p[18] as i8
            } else {
                (p[18] - 256) as i8
            },
            event_sequence: (p[23] * 256 + p[24]) as u16,
        }),
{
    assert(mac_at(p, 9) =~= p.subrange(9, 17));
}

/// Where a climate report keeps its telemetry: the battery at byte 19, whole degrees with
/// their sign at 22 and hundredths at 23, the humidity at 24, the signal strength at 27.
pub proof fn law_climate_bytes(p: Seq<u8>)
    requires
        p.len() >= 28,
        valid_utf8(p.subrange(9, 17)),
        p[8] == 0xE8,
    ensures
        alarm1_event(p) is Ok,
        ({
            let d = alarm1_event(p)->Ok_0.data;
            let degrees: int = if p[22] < 128 {
                p[22] as int
            } else {
                p[22] - 256
            };
            &&& d is Climate
            &&& d->Climate_battery == p[19]
            &&& d->temperature == degrees * 100 + p[23]
            &&& d->humidity == p[24]
            &&& d->Climate_rssi == bytes::negated(p[27])
        }),
{
    assert(mac_at(p, 9) =~= p.subrange(9, 17));
}

/// An alarm history is twelve bytes behind the header, and where more follow, the last one
/// is the signal strength.
pub proof fn law_history_bytes(p: Seq<u8>)
    requires
        p.len() >= 30,
        valid_utf8(p.subrange(9, 17)),
        p[8] == 0xAB,
    ensures
        alarm1_event(p) is Ok,
        ({
            let d = alarm1_event(p)->Ok_0.data;
            &&& d is AlarmData
            &&& d->ring_buffer == p.subrange(18, 30)
            &&& p.len() == 30 ==> d->AlarmData_rssi == 0
            &&& p.len() > 30 ==> d->AlarmData_rssi == bytes::negated(p[p.len() - 1])
        }),
{
    assert(mac_at(p, 9) =~= p.subrange(9, 17));
    assert(p.subrange(18, p.len() as int).subrange(0, 12) =~= p.subrange(18, 30));
}

/// An alarm notification is refused where it is too short for its header or for its kind of
/// telemetry, or where its address is no text; a kind that is not understood keeps its bytes.
pub proof fn law_alarm_is_refused(p: Seq<u8>)
    ensures
        alarm1_event(p) is Err <==> {
            ||| p.len() < 18
            ||| !valid_utf8(p.subrange(9, 17))
            ||| (p[8] == 0xA1 || p[8] == 0xA2) && p.len() < 26
            ||| p[8] == 0xAB && p.len() < 30
            ||| p[8] == 0xE8 && p.len() < 28
        },
        alarm1_event(p) is Ok && p[8] != 0xA1 && p[8] != 0xA2 && p[8] != 0xAB && p[8] != 0xE8
            ==> alarm1_event(p)->Ok_0.data == TelemetryView::UnknownEvent(
            p.subrange(18, p.len() as int),
        ),
{
    if p.len() >= 18 {
        assert(mac_at(p, 9) =~= p.subrange(9, 17));
    }
}

/// Where an extended alarm notification keeps what it says: the event type, eight bytes of
/// address, the kind of device, and of a leak the battery at byte 12, the state at 15, the
/// probe at 16, whether there is one at 17, the signal strength at 20.
pub proof fn law_leak_bytes(p: Seq<u8>, now: u64)
    requires
        p.len() >= 21,
        valid_utf8(p.subrange(1, 9)),
        p[0] == 0xEA,
    ensures
        alarm2_event(p, now) is Ok,
        ({
            let e = alarm2_event(p, now)->Ok_0;
            &&& encode_utf8(e.mac) == p.subrange(1, 9)
            &&& e.sensor_type == SensorType::of_code(p[9])
            &&& e.timestamp == now
            &&& e.event_type == 0xEA
            &&& e.data is Leak
            &&& e.data->Leak_battery == p[12]
            &&& e.data->Leak_state == p[15]
            &&& e.data->probe_state == p[16]
            &&& e.data->probe_available <==> p[17] == 1
            &&& e.data->Leak_rssi == bytes::negated(p[20])
        }),
{
    assert(mac_at(p, 1) =~= p.subrange(1, 9));
    decode_utf8_encode_utf8(mac_at(p, 1));
}

/// An extended alarm notification is refused where it is too short for its header or for a
/// leak, or where its address is no text; a kind that is not understood keeps its bytes.
pub proof fn law_extended_alarm_is_refused(p: Seq<u8>, now: u64)
    ensures
        alarm2_event(p, now) is Err <==> {
            ||| p.len() < 10
            ||| !valid_utf8(p.subrange(1, 9))
            ||| p[0] == 0xEA && p.len() < 21
        },
        alarm2_event(p, now) is Ok && p[0] != 0xEA ==> alarm2_event(p, now)->Ok_0.data
            == TelemetryView::UnknownEvent(p.subrange(10, p.len() as int)),
{
    if p.len() >= 10 {
        assert(mac_at(p, 1) =~= p.subrange(1, 9));
    }
}

/// Where a scan notification keeps what it says: the event type, eight bytes of address, the
/// kind of device, and the version of its firmware. It is refused where it is shorter, or
/// where its address is no text.
pub proof fn law_scan_bytes(p: Seq<u8>, now: u64)
    ensures
        scan_event(p, now) is Ok <==> p.len() >= 11 && valid_utf8(p.subrange(1, 9)),
        scan_event(p, now) is Ok ==> {
            let e = scan_event(p, now)->Ok_0;
            &&& encode_utf8(e.mac) == p.subrange(1, 9)
            &&& e.sensor_type == SensorType::of_code(p[9])
            &&& e.timestamp == now
            &&& e.event_type == p[0]
            &&& e.data == TelemetryView::Scanned { version: p[10] }
        },
{
    if p.len() >= 11 {
        assert(mac_at(p, 1) =~= p.subrange(1, 9));
        if valid_utf8(mac_at(p, 1)) {
            decode_utf8_encode_utf8(mac_at(p, 1));
        }
    }
}

/// What stands in an event is what its model shows, field by field.
pub proof fn law_model_of_an_event(e: DongleEvent)
    ensures
        e@.mac == e.mac@,
        e@.timestamp == e.timestamp,
        e@.sensor_type == e.sensor_type,
        e@.event_type == e.event_type,
        e.dongle_mac is Some ==> e@.dongle_mac == Some(e.dongle_mac->0@),
        e.dongle_mac is None ==> e@.dongle_mac is None,
        e.data matches TelemetryData::Alarm {
            battery,
            rssi,
            state,
            die_temperature_c,
            event_sequence,
        } ==> e@.data == (TelemetryView::Alarm {
            battery,
            rssi,
            state,
            die_temperature_c,
            event_sequence,
        }),
        e.data matches TelemetryData::Heartbeat {
            battery,
            rssi,
            die_temperature_c,
            event_sequence,
        } ==> e@.data == (TelemetryView::Heartbeat {
            battery,
            rssi,
            die_temperature_c,
            event_sequence,
        }),
        e.data matches TelemetryData::Climate { battery, rssi, temperature, humidity } ==> e@.data
            == (TelemetryView::Climate { battery, rssi, temperature, humidity }),
        e.data matches TelemetryData::Leak {
            battery,
            rssi,
            state,
            probe_state,
            probe_available,
        } ==> e@.data == (TelemetryView::Leak {
            battery,
            rssi,
            state,
            probe_state,
            probe_available,
        }),
        e.data matches TelemetryData::Scanned { version } ==> e@.data == (TelemetryView::Scanned {
            version,
        }),
        e.data matches TelemetryData::Paired { version } ==> e@.data == (TelemetryView::Paired {
            version,
        }),
        e.data is Offline <==> e@.data is Offline,
        e.data is UnknownEvent <==> e@.data is UnknownEvent,
        e.data is AlarmData <==> e@.data is AlarmData,
{
}

/// The three extended types are not understood: what stands behind the header is kept as it
/// is, however long it is.
pub proof fn law_extended_types_are_kept(rest: Seq<u8>)
    ensures
        alarm1_data(0xD1, rest) == Ok::<TelemetryView, &'static str>(
            TelemetryView::UnknownEvent(rest),
        ),
        alarm1_data(0xE1, rest) == alarm1_data(0xD1, rest),
        alarm1_data(0xE3, rest) == alarm1_data(0xD1, rest),
        DongleEvent::EVENT_TYPE_EXTENDED_DATA == 0xD1,
        DongleEvent::EVENT_TYPE_EXTENDED_EVENT == DongleEvent::EVENT_TYPE_EXTENDED_DATA + 0x10,
        DongleEvent::EVENT_TYPE_EXTENDED_STATUS == DongleEvent::EVENT_TYPE_EXTENDED_DATA + 0x12,
{
}

} // verus!
