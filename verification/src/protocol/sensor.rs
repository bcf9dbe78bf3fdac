//! Sensors: what is known of a device, how telemetry changes it, and how it shows
//! on MQTT.
use crate::clock;
use crate::json::{JsonObject, JsonValue, JsonView};
use crate::protocol::battery::{self, raw_to_capacity, BatteryChemistry};
pub use crate::protocol::manager::SensorManager;
use crate::protocol::telemetry::{DongleEvent, EventView, SensorType, TelemetryData, TelemetryView};
use crate::text;
use vstd::prelude::*;
use vstd::string::*;

verus! {

// ---------------------------------------------------------------------------
// Types
// ---------------------------------------------------------------------------

/// The state that is particular to a kind of device.
#[derive(Debug, Copy, Clone, PartialEq, Eq, Structural)]
pub enum SensorState {
    Contact { is_open: bool },
    Motion { is_active: bool },
    Leak {
        is_wet: bool,
        /// Nothing without a probe, else whether the probe is wet.
        probe_is_wet: Option<bool>,
    },
    /// Temperature in hundredths of a degree Celsius, humidity in percent.
    Climate { temperature: i32, humidity: u8 },
    /// A device that only takes commands.
    Chime,
    Unknown,
}

impl Default for SensorState {
    fn default() -> (r: Self)
        ensures
            r == SensorState::Unknown,
    {
        SensorState::Unknown
    }
}

/// A device of any kind.
#[derive(Debug, PartialEq, Eq)]
pub struct WyzeSensor {
    pub mac: String,
    pub sensor_type: SensorType,
    pub friendly_name: String,
    /// Seconds of silence after which the device counts as offline.
    pub timeout_sec: u64,
    /// Percent; nothing for a device without a battery.
    pub battery_pct: Option<u8>,
    /// Raw battery byte of the last report, in steps of 1/32 V.
    pub battery_raw: Option<u8>,
    pub rssi_dbm: i8,
    pub die_temperature_c: Option<i8>,
    pub event_sequence: Option<u16>,
    pub sw_version: String,
    pub is_online: bool,
    /// Seconds since the Unix epoch.
    pub last_seen: u64,
    pub state: SensorState,
    /// The dongle that the device is paired with, if it is known.
    pub dongle_mac: Option<String>,
}

/// The model of a device.
pub struct SensorView {
    pub mac: Seq<char>,
    pub sensor_type: SensorType,
    pub friendly_name: Seq<char>,
    pub timeout_sec: u64,
    pub battery_pct: Option<u8>,
    pub battery_raw: Option<u8>,
    pub rssi_dbm: i8,
    pub die_temperature_c: Option<i8>,
    pub event_sequence: Option<u16>,
    pub sw_version: Seq<char>,
    pub is_online: bool,
    pub last_seen: u64,
    pub state: SensorState,
    pub dongle_mac: Option<Seq<char>>,
}

impl View for WyzeSensor {
    type V = SensorView;

    open spec fn view(&self) -> SensorView {
        SensorView {
            mac: self.mac@,
            sensor_type: self.sensor_type,
            friendly_name: self.friendly_name@,
            timeout_sec: self.timeout_sec,
            battery_pct: self.battery_pct,
            battery_raw: self.battery_raw,
            rssi_dbm: self.rssi_dbm,
            die_temperature_c: self.die_temperature_c,
            event_sequence: self.event_sequence,
            sw_version: self.sw_version@,
            is_online: self.is_online,
            last_seen: self.last_seen,
            state: self.state,
            dongle_mac: text::option_view(self.dongle_mac),
        }
    }
}

// ---------------------------------------------------------------------------
// The model: a new device, and what an event makes of it
// ---------------------------------------------------------------------------

/// How long a device may be silent: two of its reporting periods.
pub open spec fn default_timeout(t: SensorType) -> u64 {
    match t {
        SensorType::ContactV1 | SensorType::MotionV1 => 28800,
        SensorType::ContactV2 | SensorType::MotionV2 | SensorType::LeakV2 | SensorType::ClimateV2 =>
            14400,
        SensorType::Chime => 86400,
        SensorType::Unknown(_) => 1800,
    }
}

/// The state in which a device of a type starts; nothing for an unknown type.
pub open spec fn default_state(t: SensorType) -> Option<SensorState> {
    match t {
        SensorType::ContactV1 | SensorType::ContactV2 => Some(
            SensorState::Contact { is_open: false },
        ),
        SensorType::MotionV1 | SensorType::MotionV2 => Some(
            SensorState::Motion { is_active: false },
        ),
        SensorType::LeakV2 => Some(SensorState::Leak { is_wet: false, probe_is_wet: None }),
        SensorType::ClimateV2 => Some(SensorState::Climate { temperature: 0, humidity: 0 }),
        SensorType::Chime => Some(SensorState::Chime),
        SensorType::Unknown(_) => None,
    }
}

/// The battery level in percent that a raw byte means for a sensor type.
pub open spec fn battery_level(t: SensorType, raw: u8) -> u8 {
    match BatteryChemistry::of_sensor(t) {
        Some(c) => battery::capacity(raw, c.curve()) as u8,
        None => if raw > 100 {
            100
        } else {
            raw
        },
    }
}

/// The state that telemetry makes of a state; it stays where the two do not fit.
pub open spec fn next_state(state: SensorState, data: TelemetryView) -> SensorState {
    match (state, data) {
        (SensorState::Contact { .. }, TelemetryView::Alarm { state: s, .. }) =>
            SensorState::Contact { is_open: s == 1 },
        (SensorState::Motion { .. }, TelemetryView::Alarm { state: s, .. }) =>
            SensorState::Motion { is_active: s == 1 },
        (
            SensorState::Leak { .. },
            TelemetryView::Leak { state: s, probe_state, probe_available, .. },
        ) => SensorState::Leak {
            is_wet: s == 1,
            probe_is_wet: if probe_available {
                Some(probe_state == 1)
            } else {
                None
            },
        },
        (SensorState::Climate { .. }, TelemetryView::Climate { temperature, humidity, .. }) =>
            SensorState::Climate { temperature, humidity },
        _ => state,
    }
}

/// The telemetry that says something of a device in this state, or that every
/// device may send.
pub open spec fn fits(state: SensorState, data: TelemetryView) -> bool {
    ||| state is Contact && data is Alarm
    ||| state is Motion && data is Alarm
    ||| state is Leak && data is Leak
    ||| state is Climate && data is Climate
    ||| state is Chime
    ||| data is Heartbeat
    ||| data is Scanned
    ||| data is Paired
    ||| data is Offline
    ||| data is UnknownEvent
}

impl SensorView {
    /// A device of which only its type is known.
    pub open spec fn fresh(
        mac: Seq<char>,
        sensor_type: SensorType,
        friendly_name: Seq<char>,
        last_seen: u64,
    ) -> SensorView {
        SensorView {
            mac,
            sensor_type,
            friendly_name,
            timeout_sec: default_timeout(sensor_type),
            battery_pct: if sensor_type is Chime {
                None
            } else {
                Some(100)
            },
            battery_raw: None,
            rssi_dbm: -60i8,
            die_temperature_c: None,
            event_sequence: None,
            sw_version: "unknown"@,
            is_online: true,
            last_seen,
            state: match default_state(sensor_type) {
                Some(s) => s,
                None => SensorState::Unknown,
            },
            dongle_mac: None,
        }
    }

    /// A battery and a signal reading came in. A device without a battery keeps none.
    pub open spec fn with_reading(self, battery: u8, rssi: i8) -> SensorView {
        SensorView {
            battery_pct: if self.battery_pct is Some {
                Some(battery_level(self.sensor_type, battery))
            } else {
                None
            },
            battery_raw: if self.battery_pct is Some {
                Some(battery)
            } else {
                self.battery_raw
            },
            rssi_dbm: rssi,
            ..self
        }
    }

    /// What an event says of any device, whatever its kind.
    pub open spec fn with_metadata(self, e: EventView) -> SensorView {
        match e.data {
            TelemetryView::Offline => SensorView { is_online: false, ..self },
            TelemetryView::UnknownEvent(_) => SensorView { is_online: true, ..self },
            _ => {
                let s = SensorView { is_online: true, last_seen: e.timestamp / 1000, ..self };
                match e.data {
                    TelemetryView::Heartbeat { battery, rssi, die_temperature_c, event_sequence } =>
                        SensorView {
                        die_temperature_c: Some(die_temperature_c),
                        event_sequence: Some(event_sequence),
                        ..s.with_reading(battery, rssi)
                    },
                    TelemetryView::Alarm {
                        battery,
                        rssi,
                        die_temperature_c,
                        event_sequence,
                        ..
                    } => SensorView {
                        die_temperature_c: Some(die_temperature_c),
                        event_sequence: Some(event_sequence),
                        ..s.with_reading(battery, rssi)
                    },
                    TelemetryView::Climate { battery, rssi, .. } => s.with_reading(battery, rssi),
                    TelemetryView::Leak { battery, rssi, .. } => s.with_reading(battery, rssi),
                    TelemetryView::Scanned { .. } => SensorView {
                        battery_pct: if s.battery_pct is Some {
                            Some(100)
                        } else {
                            None
                        },
                        rssi_dbm: 0,
                        ..s
                    },
                    _ => s,
                }
            },
        }
    }

    /// The state that an event meets: an unknown state gives way to the one in which
    /// a device of the type starts.
    pub open spec fn met_state(self) -> SensorState {
        if self.state is Unknown {
            match default_state(self.sensor_type) {
                Some(s) => s,
                None => SensorState::Unknown,
            }
        } else {
            self.state
        }
    }

    /// The device after an event.
    pub open spec fn after_event(self, e: EventView) -> SensorView {
        SensorView { state: next_state(self.met_state(), e.data), ..self.with_metadata(e) }
    }

    /// The event says something that a device of this kind can say.
    pub open spec fn accepts(self, e: EventView) -> bool {
        fits(self.met_state(), e.data)
    }
}

impl WyzeSensor {
    /// A device of which only its type is known, seen at the given second.
    pub fn new_at(
        mac: String,
        sensor_type: SensorType,
        friendly_name: String,
        last_seen: u64,
    ) -> (r: Self)
        ensures
            r@ == SensorView::fresh(mac@, sensor_type, friendly_name@, last_seen),
    {
        let timeout_sec: u64 = match sensor_type {
            SensorType::ContactV1 | SensorType::MotionV1 => 28800,
            SensorType::ContactV2 | SensorType::MotionV2 | SensorType::LeakV2
            | SensorType::ClimateV2 => 14400,
            SensorType::Chime => 86400,
            SensorType::Unknown(_) => 1800,
        };
        let battery_pct: Option<u8> = match sensor_type {
            SensorType::Chime => None,
            _ => Some(100),
        };
        let state = match Self::default_state_for_type(sensor_type) {
            Some(s) => s,
            None => SensorState::Unknown,
        };
        WyzeSensor {
            mac,
            sensor_type,
            friendly_name,
            timeout_sec,
            battery_pct,
            battery_raw: None,
            rssi_dbm: -60,
            die_temperature_c: None,
            event_sequence: None,
            sw_version: "unknown".to_owned(),
            is_online: true,
            last_seen,
            state,
            dongle_mac: None,
        }
    }

    /// A device of which only its type is known, seen just now.
    pub fn new(mac: String, sensor_type: SensorType, friendly_name: String) -> (r: Self)
        ensures
            r@ == SensorView::fresh(mac@, sensor_type, friendly_name@, r.last_seen),
    {
        Self::new_at(mac, sensor_type, friendly_name, clock::now_ms() / 1000)
    }

    /// A device whose type is given by its name, seen at the given second.
    pub fn from_type_str_at(
        mac: String,
        sensor_type_str: &str,
        friendly_name: String,
        last_seen: u64,
    ) -> (r: Result<Self, String>)
        ensures
            match SensorType::of_name(sensor_type_str@) {
                Some(t) => r matches Ok(s) && s@ == SensorView::fresh(
                    mac@,
                    t,
                    friendly_name@,
                    last_seen,
                ),
                None => r matches Err(e) && e@ == "Unknown sensor type string: "@
                    + sensor_type_str@,
            },
    {
        match SensorType::from_name(sensor_type_str) {
            Ok(t) => Ok(Self::new_at(mac, t, friendly_name, last_seen)),
            Err(e) => Err(e),
        }
    }

    /// A device whose type is given by its name, seen just now.
    pub fn from_type_str(mac: String, sensor_type_str: &str, friendly_name: String) -> (r: Result<
        Self,
        String,
    >)
        ensures
            match SensorType::of_name(sensor_type_str@) {
                Some(t) => r matches Ok(s) && s@ == SensorView::fresh(
                    mac@,
                    t,
                    friendly_name@,
                    s.last_seen,
                ),
                None => r matches Err(e) && e@ == "Unknown sensor type string: "@
                    + sensor_type_str@,
            },
    {
        Self::from_type_str_at(mac, sensor_type_str, friendly_name, clock::now_ms() / 1000)
    }

    /// The state in which a device of a type starts; nothing for an unknown type.
    pub fn default_state_for_type(sensor_type: SensorType) -> (r: Option<SensorState>)
        ensures
            r == default_state(sensor_type),
    {
        match sensor_type {
            SensorType::ContactV1 | SensorType::ContactV2 => Some(
                SensorState::Contact { is_open: false },
            ),
            SensorType::MotionV1 | SensorType::MotionV2 => Some(
                SensorState::Motion { is_active: false },
            ),
            SensorType::LeakV2 => Some(SensorState::Leak { is_wet: false, probe_is_wet: None }),
            SensorType::ClimateV2 => Some(SensorState::Climate { temperature: 0, humidity: 0 }),
            SensorType::Chime => Some(SensorState::Chime),
            SensorType::Unknown(_) => None,
        }
    }

    /// Whether the device only takes commands.
    pub fn is_actuator(&self) -> (r: bool)
        ensures
            r == (self.state is Chime),
    {
        match self.state {
            SensorState::Chime => true,
            _ => false,
        }
    }

    /// Sets the second in which the device was last seen.
    pub fn set_last_seen(&mut self, last_seen: u64)
        ensures
            final(self)@ == (SensorView { last_seen, ..old(self)@ }),
    {
        self.last_seen = last_seen;
    }

    fn take_reading(&mut self, battery: u8, rssi: i8)
        ensures
            final(self)@ == old(self)@.with_reading(battery, rssi),
    {
        if self.battery_pct.is_some() {
            let level: u8 = match BatteryChemistry::for_sensor(self.sensor_type) {
                Some(c) => raw_to_capacity(battery, c),
                None => if battery > 100 {
                    100
                } else {
                    battery
                },
            };
            self.battery_pct = Some(level);
            self.battery_raw = Some(battery);
        }
        self.rssi_dbm = rssi;
    }

    /// Takes over what an event says of any device.
    fn update_common_metadata(&mut self, event: &DongleEvent)
        ensures
            final(self)@ == old(self)@.with_metadata(event@),
    {
        match &event.data {
            TelemetryData::Offline => {
                self.is_online = false;
                return;
            },
            TelemetryData::UnknownEvent(_) => {
                self.is_online = true;
                return;
            },
            _ => {},
        }
        self.is_online = true;
        self.last_seen = event.timestamp / 1000;
        match &event.data {
            TelemetryData::Heartbeat { battery, rssi, die_temperature_c, event_sequence } => {
                self.take_reading(*battery, *rssi);
                self.die_temperature_c = Some(*die_temperature_c);
                self.event_sequence = Some(*event_sequence);
            },
            TelemetryData::Alarm { battery, rssi, die_temperature_c, event_sequence, .. } => {
                self.take_reading(*battery, *rssi);
                self.die_temperature_c = Some(*die_temperature_c);
                self.event_sequence = Some(*event_sequence);
            },
            TelemetryData::Climate { battery, rssi, .. } => {
                self.take_reading(*battery, *rssi);
            },
            TelemetryData::Leak { battery, rssi, .. } => {
                self.take_reading(*battery, *rssi);
            },
            TelemetryData::Scanned { .. } => {
                if self.battery_pct.is_some() {
                    self.battery_pct = Some(100);
                }
                self.rssi_dbm = 0;
            },
            _ => {},
        }
    }

    /// Takes over what an event says. What any event says is taken over even where
    /// the rest does not fit the kind of device.
    pub fn update_from_event(&mut self, event: &DongleEvent) -> (r: Result<(), &'static str>)
        ensures
            final(self)@ == old(self)@.after_event(event@),
            r == (if old(self)@.accepts(event@) {
                Ok::<(), &'static str>(())
            } else {
                Err("Unexpected event type for this sensor")
            }),
    {
        self.update_common_metadata(event);
        if let SensorState::Unknown = self.state {
            match Self::default_state_for_type(self.sensor_type) {
                Some(s) => {
                    self.state = s;
                },
                None => {},
            }
        }
        match (self.state, &event.data) {
            (SensorState::Contact { .. }, TelemetryData::Alarm { state, .. }) => {
                self.state = SensorState::Contact { is_open: *state == 1 };
                Ok(())
            },
            (SensorState::Motion { .. }, TelemetryData::Alarm { state, .. }) => {
                self.state = SensorState::Motion { is_active: *state == 1 };
                Ok(())
            },
            (
                SensorState::Leak { .. },
                TelemetryData::Leak { state, probe_state, probe_available, .. },
            ) => {
                self.state = SensorState::Leak {
                    is_wet: *state == 1,
                    probe_is_wet: if *probe_available {
                        Some(*probe_state == 1)
                    } else {
                        None
                    },
                };
                Ok(())
            },
            (
                SensorState::Climate { .. },
                TelemetryData::Climate { temperature, humidity, .. },
            ) => {
                self.state = SensorState::Climate {
                    temperature: *temperature,
                    humidity: *humidity,
                };
                Ok(())
            },
            (SensorState::Chime, _) => Ok(()),
            (_, TelemetryData::Heartbeat { .. }) | (_, TelemetryData::Scanned { .. })
            | (_, TelemetryData::Paired { .. }) | (_, TelemetryData::Offline)
            | (_, TelemetryData::UnknownEvent(_)) => Ok(()),
            _ => Err("Unexpected event type for this sensor"),
        }
    }
}

// ---------------------------------------------------------------------------
// State payload
// ---------------------------------------------------------------------------

/// `wet` or `dry`.
pub open spec fn wetness(wet: bool) -> JsonView {
    JsonView::Text(if wet {
        "wet"@
    } else {
        "dry"@
    })
}

impl SensorView {
    /// What is published of every device.
    pub open spec fn common_payload(self) -> Map<Seq<char>, JsonView> {
        let p = Map::<Seq<char>, JsonView>::empty().insert("mac"@, JsonView::Text(self.mac)).insert(
            "name"@,
            JsonView::Text(self.friendly_name),
        ).insert("online"@, JsonView::Bool(self.is_online)).insert(
            "sensor_type"@,
            JsonView::Text(self.sensor_type.name()),
        ).insert("signal_strength"@, JsonView::Int(self.rssi_dbm as i64)).insert(
            "sw_version"@,
            JsonView::Text(self.sw_version),
        ).insert("timestamp"@, JsonView::Ratio(self.last_seen, 1));
        let p = match self.battery_pct {
            Some(b) => p.insert("battery"@, JsonView::Int(b as i64)),
            None => p,
        };
        let p = match self.battery_raw {
            Some(raw) => p.insert("battery_voltage"@, JsonView::Ratio(raw as u64, 32)),
            None => p,
        };
        match self.die_temperature_c {
            Some(t) => p.insert("die_temperature"@, JsonView::Int(t as i64)),
            None => p,
        }
    }

    /// The state of the device as it is published.
    pub open spec fn state_payload(self) -> Map<Seq<char>, JsonView> {
        let p = self.common_payload();
        match self.state {
            SensorState::Contact { is_open } => p.insert(
                "state"@,
                JsonView::Text(if is_open {
                    "open"@
                } else {
                    "closed"@
                }),
            ),
            SensorState::Motion { is_active } => p.insert(
                "state"@,
                JsonView::Text(if is_active {
                    "active"@
                } else {
                    "inactive"@
                }),
            ),
            SensorState::Leak { is_wet, probe_is_wet } => p.insert(
                "state"@,
                wetness(is_wet),
            ).insert("probe_available"@, JsonView::Bool(probe_is_wet is Some)).insert(
                "probe_state"@,
                wetness(probe_is_wet == Some(true)),
            ),
            SensorState::Climate { temperature, humidity } => p.insert(
                "temperature"@,
                JsonView::Text(text::hundredths_text(temperature as int)),
            ).insert("humidity"@, JsonView::Int(humidity as i64)),
            SensorState::Chime => p.insert("state"@, JsonView::Text("idle"@)),
            SensorState::Unknown => p.insert("state"@, JsonView::Text("unknown"@)),
        }
    }
}

fn wetness_text(wet: bool) -> (r: JsonValue)
    ensures
        r@ == wetness(wet),
{
    JsonValue::text(if wet {
        "wet"
    } else {
        "dry"
    })
}

impl WyzeSensor {
    fn common_payload(&self) -> (r: JsonObject)
        ensures
            r@ == self@.common_payload(),
    {
        let mut p = JsonObject::new();
        p.set_text("mac", self.mac.as_str());
        p.set_text("name", self.friendly_name.as_str());
        p.set("online", JsonValue::Bool(self.is_online));
        p.set_text("sensor_type", self.sensor_type.as_str());
        p.set("signal_strength", JsonValue::Int(self.rssi_dbm as i64));
        p.set_text("sw_version", self.sw_version.as_str());
        p.set("timestamp", JsonValue::Ratio(self.last_seen, 1));
        match self.battery_pct {
            Some(b) => {
                p.set("battery", JsonValue::Int(b as i64));
            },
            None => {},
        }
        match self.battery_raw {
            Some(raw) => {
                p.set("battery_voltage", JsonValue::Ratio(raw as u64, 32));
            },
            None => {},
        }
        match self.die_temperature_c {
            Some(t) => {
                p.set("die_temperature", JsonValue::Int(t as i64));
            },
            None => {},
        }
        p
    }

    /// The state of the device as it is published on its state topic.
    pub fn get_state_payload(&self) -> (r: JsonObject)
        ensures
            r@ == self@.state_payload(),
    {
        let mut p = self.common_payload();
        match self.state {
            SensorState::Contact { is_open } => {
                p.set_text("state", if is_open {
                    "open"
                } else {
                    "closed"
                });
            },
            SensorState::Motion { is_active } => {
                p.set_text("state", if is_active {
                    "active"
                } else {
                    "inactive"
                });
            },
            SensorState::Leak { is_wet, probe_is_wet } => {
                p.set("state", wetness_text(is_wet));
                match probe_is_wet {
                    Some(wet) => {
                        p.set("probe_available", JsonValue::Bool(true));
                        p.set("probe_state", wetness_text(wet));
                    },
                    None => {
                        p.set("probe_available", JsonValue::Bool(false));
                        p.set("probe_state", wetness_text(false));
                    },
                }
            },
            SensorState::Climate { temperature, humidity } => {
                p.set("temperature", JsonValue::Text(text::hundredths(temperature)));
                p.set("humidity", JsonValue::Int(humidity as i64));
            },
            SensorState::Chime => {
                p.set_text("state", "idle");
            },
            SensorState::Unknown => {
                p.set_text("state", "unknown");
            },
        }
        p
    }
}

// ---------------------------------------------------------------------------
// Laws
// ---------------------------------------------------------------------------

/// An event never changes who a device is: its address, type, name, timeout, version
/// and dongle.
pub proof fn law_event_keeps_identity(s: SensorView, e: EventView)
    ensures
        s.after_event(e).mac == s.mac,
        s.after_event(e).sensor_type == s.sensor_type,
        s.after_event(e).friendly_name == s.friendly_name,
        s.after_event(e).timeout_sec == s.timeout_sec,
        s.after_event(e).sw_version == s.sw_version,
        s.after_event(e).dongle_mac == s.dongle_mac,
{
}

/// A heartbeat, a scan and a pairing leave a state that is known as it is.
pub proof fn law_signs_of_life_keep_state(s: SensorView, e: EventView)
    requires
        !(s.state is Unknown),
        e.data is Heartbeat || e.data is Scanned || e.data is Paired,
    ensures
        s.after_event(e).state == s.state,
{
}

/// A device that has a kind never changes it: a contact stays a contact, and so on.
pub proof fn law_kind_of_state_is_kept(s: SensorView, e: EventView)
    requires
        !(s.state is Unknown),
    ensures
        s.state is Contact == s.after_event(e).state is Contact,
        s.state is Motion == s.after_event(e).state is Motion,
        s.state is Leak == s.after_event(e).state is Leak,
        s.state is Climate == s.after_event(e).state is Climate,
        s.state is Chime == s.after_event(e).state is Chime,
{
}

/// Going offline changes nothing else of a device whose state is known, and whatever it
/// sends next brings it back online.
pub proof fn law_offline_until_next_event(s: SensorView, off: EventView, next: EventView)
    requires
        off.data is Offline,
        !(next.data is Offline),
        !(s.state is Unknown),
    ensures
        s.after_event(off) == (SensorView { is_online: false, ..s }),
        s.after_event(off).after_event(next).is_online,
{
}

/// Telemetry dates a device: it was last seen when the event says.
pub proof fn law_telemetry_dates(s: SensorView, e: EventView)
    requires
        !(e.data is Offline),
        !(e.data is UnknownEvent),
    ensures
        s.after_event(e).last_seen == e.timestamp / 1000,
{
}

/// An alarm decides a contact or motion state whatever it was before.
pub proof fn law_alarm_decides(a: SensorView, b: SensorView, e: EventView)
    requires
        e.data is Alarm,
        a.state is Contact && b.state is Contact || a.state is Motion && b.state is Motion,
    ensures
        a.after_event(e).state == b.after_event(e).state,
{
}

/// A battery level is a percentage, and stays one.
pub proof fn law_battery_is_a_percentage(s: SensorView, e: EventView)
    requires
        s.battery_pct is Some ==> s.battery_pct->0 <= 100,
    ensures
        s.after_event(e).battery_pct is Some == s.battery_pct is Some,
        s.after_event(e).battery_pct is Some ==> s.after_event(e).battery_pct->0 <= 100,
{
    let raw: u8 = match e.data {
        TelemetryView::Heartbeat { battery, .. } => battery,
        TelemetryView::Alarm { battery, .. } => battery,
        TelemetryView::Climate { battery, .. } => battery,
        TelemetryView::Leak { battery, .. } => battery,
        _ => 0,
    };
    match BatteryChemistry::of_sensor(s.sensor_type) {
        Some(c) => {
            battery::law_curves_fall(c);
            battery::law_capacity_bounds(raw, c.curve());
        },
        None => {},
    }
}

/// A contact or motion sensor follows the state byte of an alarm: it is open or active
/// after an alarm with the byte 1, and closed or inactive after one with any other byte.
/// That is also what its state payload then says.
pub proof fn law_alarm_is_followed(s: SensorView, e: EventView)
    requires
        e.data is Alarm,
        s.state is Contact || s.state is Motion,
    ensures
        s.accepts(e),
        s.state is Contact && e.data->Alarm_state == 1 ==> {
            &&& s.after_event(e).state == SensorState::Contact { is_open: true }
            &&& s.after_event(e).state_payload()["state"@] == JsonView::Text("open"@)
        },
        s.state is Contact && e.data->Alarm_state != 1 ==> {
            &&& s.after_event(e).state == SensorState::Contact { is_open: false }
            &&& s.after_event(e).state_payload()["state"@] == JsonView::Text("closed"@)
        },
        s.state is Motion && e.data->Alarm_state == 1 ==> {
            &&& s.after_event(e).state == SensorState::Motion { is_active: true }
            &&& s.after_event(e).state_payload()["state"@] == JsonView::Text("active"@)
        },
        s.state is Motion && e.data->Alarm_state != 1 ==> {
            &&& s.after_event(e).state == SensorState::Motion { is_active: false }
            &&& s.after_event(e).state_payload()["state"@] == JsonView::Text("inactive"@)
        },
{
}

/// A device whose state is still unknown is taken for what its type says as soon as an
/// alarm comes in: a contact sensor of either version opens with the byte 1 and closes
/// with any other, a motion sensor of either version becomes active and inactive.
pub proof fn law_first_alarm_is_followed(s: SensorView, e: EventView)
    requires
        e.data is Alarm,
        s.state is Unknown,
    ensures
        s.sensor_type is ContactV1 || s.sensor_type is ContactV2 ==> s.after_event(e).state == (
        SensorState::Contact { is_open: e.data->Alarm_state == 1 }),
        s.sensor_type is MotionV1 || s.sensor_type is MotionV2 ==> s.after_event(e).state == (
        SensorState::Motion { is_active: e.data->Alarm_state == 1 }),
        s.sensor_type is LeakV2 || s.sensor_type is ClimateV2 ==> !s.accepts(e),
        s.sensor_type is Unknown ==> s.after_event(e).state is Unknown && !s.accepts(e),
{
}

/// A leak sensor follows its reports: it is wet exactly on the byte 1, and its probe is
/// known exactly where the report has one, wet again on the byte 1.
pub proof fn law_leak_report_is_followed(s: SensorView, e: EventView)
    requires
        e.data is Leak,
        s.state is Leak,
    ensures
        s.accepts(e),
        s.after_event(e).state is Leak,
        s.after_event(e).state->is_wet <==> e.data->Leak_state == 1,
        s.after_event(e).state->probe_is_wet is Some <==> e.data->probe_available,
        e.data->probe_available ==> (s.after_event(e).state->probe_is_wet == Some(true)
            <==> e.data->probe_state == 1),
{
}

/// A climate sensor holds the temperature and the humidity of its last report, each in its
/// own place.
pub proof fn law_climate_report_is_followed(s: SensorView, e: EventView)
    requires
        e.data is Climate,
        s.state is Climate,
    ensures
        s.accepts(e),
        s.after_event(e).state is Climate,
        s.after_event(e).state->temperature == e.data->temperature,
        s.after_event(e).state->humidity == e.data->humidity,
{
}

/// What does not fit a device is refused, and leaves the state as it was: a report that
/// only another kind of sensor sends, and an alarm history.
pub proof fn law_foreign_report_is_refused(s: SensorView, e: EventView)
    requires
        !(s.state is Unknown),
        !(s.state is Chime),
        e.data is AlarmData || e.data is Alarm && (s.state is Leak || s.state is Climate)
            || e.data is Leak && !(s.state is Leak) || e.data is Climate && !(
        s.state is Climate),
    ensures
        !s.accepts(e),
        s.after_event(e).state == s.state,
{
}

/// Every device takes a sign of life, a scan, a pairing, its own silence and what is not
/// understood; a chime takes everything.
pub proof fn law_common_events_are_taken(s: SensorView, e: EventView)
    requires
        e.data is Heartbeat || e.data is Scanned || e.data is Paired || e.data is Offline
            || e.data is UnknownEvent || s.state is Chime,
    ensures
        s.accepts(e),
        !(s.state is Unknown) ==> s.after_event(e).state == s.state,
{
}

/// A report leaves its own readings behind: the signal strength, and the raw battery byte
/// where the device has a battery. An alarm and a heartbeat leave the chip temperature and
/// the sequence number too, other reports keep the ones that were there.
pub proof fn law_readings_are_kept(s: SensorView, e: EventView)
    ensures
        e.data matches TelemetryView::Heartbeat {
            battery,
            rssi,
            die_temperature_c,
            event_sequence,
        } ==> {
            &&& s.after_event(e).rssi_dbm == rssi
            &&& s.battery_pct is Some ==> s.after_event(e).battery_raw == Some(battery)
            &&& s.after_event(e).die_temperature_c == Some(die_temperature_c)
            &&& s.after_event(e).event_sequence == Some(event_sequence)
        },
        e.data matches TelemetryView::Alarm {
            battery,
            rssi,
            state,
            die_temperature_c,
            event_sequence,
        } ==> {
            &&& s.after_event(e).rssi_dbm == rssi
            &&& s.battery_pct is Some ==> s.after_event(e).battery_raw == Some(battery)
            &&& s.after_event(e).die_temperature_c == Some(die_temperature_c)
            &&& s.after_event(e).event_sequence == Some(event_sequence)
        },
        e.data matches TelemetryView::Climate { battery, rssi, temperature, humidity } ==> {
            &&& s.after_event(e).rssi_dbm == rssi
            &&& s.battery_pct is Some ==> s.after_event(e).battery_raw == Some(battery)
        },
        e.data matches TelemetryView::Leak {
            battery,
            rssi,
            state,
            probe_state,
            probe_available,
        } ==> {
            &&& s.after_event(e).rssi_dbm == rssi
            &&& s.battery_pct is Some ==> s.after_event(e).battery_raw == Some(battery)
        },
        !(e.data is Heartbeat) && !(e.data is Alarm) ==> {
            &&& s.after_event(e).die_temperature_c == s.die_temperature_c
            &&& s.after_event(e).event_sequence == s.event_sequence
        },
        s.battery_pct is None ==> s.after_event(e).battery_pct is None
            && s.after_event(e).battery_raw == s.battery_raw,
{
}

/// What carries no reading changes none: a pairing, an alarm history, silence and what
/// is not understood. A scan resets the signal to nothing and the battery to full.
pub proof fn law_readings_come_from_reports(s: SensorView, e: EventView)
    ensures
        e.data is Paired || e.data is AlarmData || e.data is Offline || e.data is UnknownEvent
            ==> {
            &&& s.after_event(e).rssi_dbm == s.rssi_dbm
            &&& s.after_event(e).battery_pct == s.battery_pct
            &&& s.after_event(e).battery_raw == s.battery_raw
        },
        e.data is Scanned ==> {
            &&& s.after_event(e).rssi_dbm == 0
            &&& s.battery_pct is Some ==> s.after_event(e).battery_pct == Some(100u8)
            &&& s.after_event(e).battery_raw == s.battery_raw
        },
        e.data is Offline || e.data is UnknownEvent ==> s.after_event(e).last_seen == s.last_seen,
        s.after_event(e).is_online <==> !(e.data is Offline),
{
}

/// The battery level that a report leaves is read off the discharge curve of the cells
/// that the sensor takes: one AAA cell in the second version of a contact sensor, two in
/// that of a motion sensor, a coin cell in the other sensors. Without a curve the byte
/// itself is taken, up to one hundred.
pub proof fn law_battery_level_follows_the_cells(s: SensorView, battery: u8, rssi: i8)
    requires
        s.battery_pct is Some,
    ensures
        ({
            let level = s.with_reading(battery, rssi).battery_pct;
            let coin = battery::capacity(battery, BatteryChemistry::Lithium3VCoinCell.curve());
            let one = battery::capacity(battery, BatteryChemistry::Alkaline1V5SingleAAA.curve());
            let two = battery::capacity(battery, BatteryChemistry::Alkaline3VDualAAA.curve());
            &&& level is Some
            &&& s.sensor_type is ContactV1 || s.sensor_type is MotionV1 || s.sensor_type is LeakV2
                || s.sensor_type is ClimateV2 ==> level->0 == coin
            &&& s.sensor_type is ContactV2 ==> level->0 == one
            &&& s.sensor_type is MotionV2 ==> level->0 == two
            &&& s.sensor_type is Unknown && battery <= 100 ==> level->0 == battery
            &&& s.sensor_type is Unknown && battery > 100 ==> level->0 == 100
        }),
{
    match BatteryChemistry::of_sensor(s.sensor_type) {
        Some(c) => {
            battery::law_curves_fall(c);
            battery::law_capacity_bounds(battery, c.curve());
        },
        None => {},
    }
}

/// A device of which only its type is known is online and dry, closed or still; it has a
/// full battery unless it is a chime, and no reading yet. Sensors of the first version may
/// be silent for eight hours, those of the second for four, a chime for a day, and what is
/// unknown for half an hour.
pub proof fn law_new_device(mac: Seq<char>, t: SensorType, name: Seq<char>, last_seen: u64)
    ensures
        ({
            let s = SensorView::fresh(mac, t, name, last_seen);
            &&& s.mac == mac
            &&& s.friendly_name == name
            &&& s.sensor_type == t
            &&& s.last_seen == last_seen
            &&& s.is_online
            &&& s.battery_pct == (if t is Chime {
                None
            } else {
                Some(100u8)
            })
            &&& s.battery_raw is None
            &&& s.die_temperature_c is None
            &&& s.event_sequence is None
            &&& s.dongle_mac is None
            &&& s.rssi_dbm == -60
            &&& s.sw_version == "unknown"@
            &&& t is ContactV1 || t is MotionV1 ==> s.timeout_sec == 8 * 3600
            &&& t is ContactV2 || t is MotionV2 || t is LeakV2 || t is ClimateV2 ==> s.timeout_sec
                == 4 * 3600
            &&& t is Chime ==> s.timeout_sec == 24 * 3600
            &&& t is Unknown ==> s.timeout_sec == 1800
            &&& t is ContactV1 || t is ContactV2 ==> s.state == SensorState::Contact {
                is_open: false,
            }
            &&& t is MotionV1 || t is MotionV2 ==> s.state == SensorState::Motion {
                is_active: false,
            }
            &&& t is LeakV2 ==> s.state == SensorState::Leak { is_wet: false, probe_is_wet: None }
            &&& t is ClimateV2 ==> s.state == SensorState::Climate { temperature: 0, humidity: 0 }
            &&& t is Chime ==> s.state is Chime
            &&& t is Unknown ==> s.state is Unknown
        }),
{
}

proof fn lemma_payload_names()
    ensures
        "mac"@.len() == 3,
        "name"@.len() == 4,
        "state"@.len() == 5,
        "online"@.len() == 6,
        "battery"@.len() == 7,
        "humidity"@.len() == 8,
        "timestamp"@.len() == 9,
        "sw_version"@.len() == 10,
        "sensor_type"@.len() == 11 && "sensor_type"@[0] == 's',
        "probe_state"@.len() == 11 && "probe_state"@[0] == 'p',
        "temperature"@.len() == 11 && "temperature"@[0] == 't',
        "signal_strength"@.len() == 15 && "signal_strength"@[0] == 's',
        "battery_voltage"@.len() == 15 && "battery_voltage"@[0] == 'b',
        "die_temperature"@.len() == 15 && "die_temperature"@[0] == 'd',
        "probe_available"@.len() == 15 && "probe_available"@[0] == 'p',
{
    reveal_strlit("mac");
    reveal_strlit("name");
    reveal_strlit("state");
    reveal_strlit("online");
    reveal_strlit("battery");
    reveal_strlit("humidity");
    reveal_strlit("timestamp");
    reveal_strlit("sw_version");
    reveal_strlit("sensor_type");
    reveal_strlit("probe_state");
    reveal_strlit("temperature");
    reveal_strlit("signal_strength");
    reveal_strlit("battery_voltage");
    reveal_strlit("die_temperature");
    reveal_strlit("probe_available");
}

/// The state payload of every device tells each of its readings under the reading's own
/// name, and tells of battery, voltage and chip temperature exactly where they are known.
/// The voltage is the raw byte in steps of 1/32 V.
pub proof fn law_payload_tells_the_readings(s: SensorView)
    ensures
        ({
            let p = s.state_payload();
            &&& p.contains_key("mac"@) && p["mac"@] == JsonView::Text(s.mac)
            &&& p.contains_key("name"@) && p["name"@] == JsonView::Text(s.friendly_name)
            &&& p.contains_key("online"@) && p["online"@] == JsonView::Bool(s.is_online)
            &&& p.contains_key("sensor_type"@) && p["sensor_type"@] == JsonView::Text(
                s.sensor_type.name(),
            )
            &&& p.contains_key("signal_strength"@) && p["signal_strength"@] == JsonView::Int(
                s.rssi_dbm as i64,
            )
            &&& p.contains_key("sw_version"@) && p["sw_version"@] == JsonView::Text(s.sw_version)
            &&& p.contains_key("timestamp"@) && p["timestamp"@] == JsonView::Ratio(s.last_seen, 1)
            &&& p.contains_key("battery"@) <==> s.battery_pct is Some
            &&& s.battery_pct is Some ==> p["battery"@] == JsonView::Int(s.battery_pct->0 as i64)
            &&& p.contains_key("battery_voltage"@) <==> s.battery_raw is Some
            &&& s.battery_raw is Some ==> p["battery_voltage"@] == JsonView::Ratio(
                s.battery_raw->0 as u64,
                32,
            )
            &&& p.contains_key("die_temperature"@) <==> s.die_temperature_c is Some
            &&& s.die_temperature_c is Some ==> p["die_temperature"@] == JsonView::Int(
                s.die_temperature_c->0 as i64,
            )
        }),
{
    lemma_payload_names();
}

/// The state payload tells the state that is particular to a kind of device. Of a climate
/// sensor it tells under `temperature` the sensor's own temperature, as a decimal with two
/// places, and under `humidity` the sensor's own humidity as a number.
pub proof fn law_payload_tells_the_state(s: SensorView)
    ensures
        ({
            let p = s.state_payload();
            match s.state {
                SensorState::Contact { is_open } => {
                    &&& p.contains_key("state"@)
                    &&& is_open ==> p["state"@] == JsonView::Text("open"@)
                    &&& !is_open ==> p["state"@] == JsonView::Text("closed"@)
                },
                SensorState::Motion { is_active } => {
                    &&& p.contains_key("state"@)
                    &&& is_active ==> p["state"@] == JsonView::Text("active"@)
                    &&& !is_active ==> p["state"@] == JsonView::Text("inactive"@)
                },
                SensorState::Leak { is_wet, probe_is_wet } => {
                    &&& p.contains_key("state"@)
                    &&& is_wet ==> p["state"@] == JsonView::Text("wet"@)
                    &&& !is_wet ==> p["state"@] == JsonView::Text("dry"@)
                    &&& p.contains_key("probe_available"@)
                    &&& p.contains_key("probe_state"@)
                    &&& probe_is_wet is Some ==> p["probe_available"@] == JsonView::Bool(true)
                    &&& probe_is_wet is None ==> p["probe_available"@] == JsonView::Bool(false)
                    &&& probe_is_wet == Some(true) ==> p["probe_state"@] == JsonView::Text("wet"@)
                    &&& probe_is_wet != Some(true) ==> p["probe_state"@] == JsonView::Text("dry"@)
                },
                SensorState::Climate { temperature, humidity } => {
                    &&& !p.contains_key("state"@)
                    &&& p.contains_key("temperature"@)
                    &&& p["temperature"@] is Text
                    &&& text::says_hundredths(p["temperature"@]->Text_0, temperature as int)
                    &&& p.contains_key("humidity"@)
                    &&& p["humidity"@] is Int
                    &&& p["humidity"@]->Int_0 == humidity
                },
                SensorState::Chime => p.contains_key("state"@) && p["state"@] == JsonView::Text(
                    "idle"@,
                ),
                SensorState::Unknown => p.contains_key("state"@) && p["state"@] == JsonView::Text(
                    "unknown"@,
                ),
            }
        }),
{
    lemma_payload_names();
    match s.state {
        SensorState::Climate { temperature, .. } => {
            text::law_hundredths_are_said(temperature as int);
        },
        _ => {},
    }
}

/// From the air to the broker: a climate report makes the state payload say the
/// temperature and the humidity that it carried.
pub proof fn law_climate_report_is_published(s: SensorView, e: EventView)
    requires
        e.data is Climate,
        s.state is Climate,
    ensures
        ({
            let p = s.after_event(e).state_payload();
            &&& p["temperature"@] is Text
            &&& text::says_hundredths(p["temperature"@]->Text_0, e.data->temperature as int)
            &&& p["humidity"@] == JsonView::Int(e.data->humidity as i64)
        }),
{
    law_payload_tells_the_state(s.after_event(e));
}

/// What stands in a sensor is what its model shows, field by field.
pub proof fn law_model_of_a_sensor(s: WyzeSensor)
    ensures
        s@.mac == s.mac@,
        s@.sensor_type == s.sensor_type,
        s@.friendly_name == s.friendly_name@,
        s@.timeout_sec == s.timeout_sec,
        s@.battery_pct == s.battery_pct,
        s@.battery_raw == s.battery_raw,
        s@.rssi_dbm == s.rssi_dbm,
        s@.die_temperature_c == s.die_temperature_c,
        s@.event_sequence == s.event_sequence,
        s@.sw_version == s.sw_version@,
        s@.is_online == s.is_online,
        s@.last_seen == s.last_seen,
        s@.state == s.state,
        s.dongle_mac is Some ==> s@.dongle_mac == Some(s.dongle_mac->0@),
        s.dongle_mac is None ==> s@.dongle_mac is None,
{
}

} // verus!
