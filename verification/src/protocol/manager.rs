//! The sensors of the bridge: who they are, what events make of them, which
//! dongle they belong to, and what is remembered of them.
//!
//! Nothing here touches a file. What stands in files comes in as a `SensorsConfig`
//! or a `SystemState` and goes out the same way.
use crate::clock;
use crate::config::sensors::{MetadataView, SensorMetadata, SensorsConfig};
use crate::config::state::{PersistedSensorState, PersistedView, SystemState};
use crate::protocol::sensor::{SensorView, WyzeSensor};
use crate::protocol::telemetry::{DongleEvent, EventView, SensorType, TelemetryData, TelemetryView};
use crate::registry::Registry;
use crate::text;
use vstd::prelude::*;
use vstd::string::*;
use vstd::utf8::*;

verus! {

/// The sensors of the bridge, by MAC address.
pub type Sensors = Map<Seq<char>, SensorView>;

/// What the user says of the sensors, by MAC address.
pub type Settings = Map<Seq<char>, MetadataView>;

/// What is remembered of the sensors, by MAC address.
pub type Memory = Map<Seq<char>, PersistedView>;

// ---------------------------------------------------------------------------
// Names
// ---------------------------------------------------------------------------

/// The name of a sensor that nobody named.
pub open spec fn plain_name(mac: Seq<char>) -> Seq<char> {
    "Wyze Sense "@ + mac
}

fn make_plain_name(mac: &str) -> (r: String)
    ensures
        r@ == plain_name(mac@),
{
    let mut t = "Wyze Sense ".to_owned();
    t.append(mac);
    t
}

/// The name of a sensor type in capitals.
pub open spec fn capital_name(t: SensorType) -> Seq<char> {
    match t {
        SensorType::ContactV1 => "SWITCH"@,
        SensorType::ContactV2 => "SWITCHV2"@,
        SensorType::MotionV1 => "MOTION"@,
        SensorType::MotionV2 => "MOTIONV2"@,
        SensorType::LeakV2 => "LEAK"@,
        SensorType::ClimateV2 => "CLIMATE"@,
        SensorType::Chime => "CHIME"@,
        SensorType::Unknown(_) => "UNKNOWN"@,
    }
}

fn capitals(t: SensorType) -> (r: &'static str)
    ensures
        r@ == capital_name(t),
{
    match t {
        SensorType::ContactV1 => "SWITCH",
        SensorType::ContactV2 => "SWITCHV2",
        SensorType::MotionV1 => "MOTION",
        SensorType::MotionV2 => "MOTIONV2",
        SensorType::LeakV2 => "LEAK",
        SensorType::ClimateV2 => "CLIMATE",
        SensorType::Chime => "CHIME",
        SensorType::Unknown(_) => "UNKNOWN",
    }
}

/// A MAC address from which the last four bytes can be cut off as text.
pub open spec fn has_tail(mac: Seq<char>) -> bool {
    let b = encode_utf8(mac);
    b.len() >= 4 && is_char_boundary(b, b.len() - 4)
}

/// The last four bytes of a MAC address.
pub open spec fn tail(mac: Seq<char>) -> Seq<char> {
    let b = encode_utf8(mac);
    decode_utf8(b.subrange(b.len() - 4, b.len() as int))
}

fn mac_has_tail(mac: &str) -> (r: bool)
    ensures
        r == has_tail(mac@),
{
    let n: usize = mac.as_bytes().len();
    n >= 4 && mac.is_char_boundary(n - 4)
}

fn mac_tail(mac: &str) -> (r: &str)
    requires
        has_tail(mac@),
    ensures
        r@ == tail(mac@),
{
    let n: usize = mac.as_bytes().len();
    let (_, t) = mac.split_at(n - 4);
    proof {
        encode_utf8_decode_utf8(t@);
    }
    t
}

/// The name of a sensor after its type and the end of its MAC address.
pub open spec fn typed_name(mac: Seq<char>, t: SensorType) -> Seq<char> {
    "Wyze "@ + capital_name(t) + " "@ + tail(mac)
}

fn make_typed_name(mac: &str, t: SensorType) -> (r: String)
    requires
        has_tail(mac@),
    ensures
        r@ == typed_name(mac@, t),
{
    let mut s = "Wyze ".to_owned();
    s.append(capitals(t));
    s.append(" ");
    s.append(mac_tail(mac));
    s
}

/// A name that the bridge made up.
pub open spec fn is_made_up(name: Seq<char>) -> bool {
    text::has_prefix(name, "Wyze Sense"@) || text::has_prefix(name, "Wyze Sensor"@)
        || text::has_prefix(name, "Wyze UNKNOWN"@)
}

fn name_is_made_up(name: &str) -> (r: bool)
    ensures
        r == is_made_up(name@),
{
    text::starts_with(name, "Wyze Sense") || text::starts_with(name, "Wyze Sensor")
        || text::starts_with(name, "Wyze UNKNOWN")
}

// ---------------------------------------------------------------------------
// Memory
// ---------------------------------------------------------------------------

/// What is remembered of a sensor.
pub open spec fn record(mac: Seq<char>, s: SensorView) -> PersistedView {
    PersistedView {
        mac,
        sensor_type: s.sensor_type.name(),
        last_seen: s.last_seen,
        battery: s.battery_pct,
        battery_raw: s.battery_raw,
        signal: s.rssi_dbm,
        die_temperature_c: s.die_temperature_c,
        event_sequence: s.event_sequence,
        state: s.state,
        dongle_mac: s.dongle_mac,
    }
}

/// What is remembered of all sensors.
pub open spec fn records(m: Sensors) -> Memory {
    Map::new(|k: Seq<char>| m.contains_key(k), |k: Seq<char>| record(k, m[k]))
}

/// A sensor with what is remembered of it.
pub open spec fn restored(s: SensorView, c: PersistedView) -> SensorView {
    SensorView {
        battery_pct: if c.battery is Some {
            c.battery
        } else {
            s.battery_pct
        },
        battery_raw: c.battery_raw,
        rssi_dbm: c.signal,
        die_temperature_c: c.die_temperature_c,
        event_sequence: c.event_sequence,
        last_seen: c.last_seen,
        state: c.state,
        dongle_mac: c.dongle_mac,
        ..s
    }
}

/// The record of a sensor, as it is remembered and listed.
pub fn make_record(mac: &str, s: &WyzeSensor) -> (r: PersistedSensorState)
    ensures
        r@ == record(mac@, s@),
{
    PersistedSensorState {
        mac: mac.to_owned(),
        sensor_type: s.sensor_type.as_str().to_owned(),
        last_seen: s.last_seen,
        battery: s.battery_pct,
        battery_raw: s.battery_raw,
        signal: s.rssi_dbm,
        die_temperature_c: s.die_temperature_c,
        event_sequence: s.event_sequence,
        state: s.state,
        dongle_mac: text::copy_option(&s.dongle_mac),
    }
}

fn restore(s: &mut WyzeSensor, c: &PersistedSensorState)
    ensures
        final(s)@ == restored(old(s)@, c@),
{
    if c.battery.is_some() {
        s.battery_pct = c.battery;
    }
    s.battery_raw = c.battery_raw;
    s.rssi_dbm = c.signal;
    s.die_temperature_c = c.die_temperature_c;
    s.event_sequence = c.event_sequence;
    s.last_seen = c.last_seen;
    s.state = c.state;
    s.dongle_mac = text::copy_option(&c.dongle_mac);
}

// ---------------------------------------------------------------------------
// Loading
// ---------------------------------------------------------------------------

/// The name of a sensor: the user's, or a plain one.
pub open spec fn chosen_name(config: Settings, mac: Seq<char>) -> Seq<char> {
    if config.contains_key(mac) {
        config[mac].name
    } else {
        plain_name(mac)
    }
}

/// The type name of a sensor: what is remembered goes before what the user says.
pub open spec fn chosen_type(config: Settings, memory: Memory, mac: Seq<char>) -> Seq<char> {
    if memory.contains_key(mac) {
        memory[mac].sensor_type
    } else if config.contains_key(mac) && config[mac].kind is Some {
        config[mac].kind->0
    } else {
        "unknown"@
    }
}

/// The sensor that settings and memory describe, if its type is one.
pub open spec fn described(config: Settings, memory: Memory, mac: Seq<char>, now: u64) -> Option<
    SensorView,
> {
    match SensorType::of_name(chosen_type(config, memory, mac)) {
        None => None,
        Some(t) => {
            let s = SensorView::fresh(mac, t, chosen_name(config, mac), now);
            let s = if config.contains_key(mac) {
                SensorView {
                    timeout_sec: match config[mac].timeout_sec {
                        Some(x) => x,
                        None => s.timeout_sec,
                    },
                    sw_version: match config[mac].sw_version {
                        Some(v) => v,
                        None => s.sw_version,
                    },
                    ..s
                }
            } else {
                s
            };
            Some(if memory.contains_key(mac) {
                restored(s, memory[mac])
            } else {
                s
            })
        },
    }
}

/// The settings of a sensor that the user has said nothing of.
pub open spec fn stub(mac: Seq<char>, timeout_sec: u64) -> MetadataView {
    MetadataView {
        name: plain_name(mac),
        kind: None,
        timeout_sec: Some(timeout_sec),
        sw_version: None,
    }
}

/// Sensors and settings.
pub struct Loaded {
    pub sensors: Sensors,
    pub config: Settings,
}

/// A sensor that a dongle lists was loaded. Where the user has said nothing of it,
/// the settings get an entry.
pub open spec fn load_one(l: Loaded, memory: Memory, mac: Seq<char>, now: u64) -> Loaded {
    match described(l.config, memory, mac, now) {
        None => l,
        Some(s) => Loaded {
            sensors: l.sensors.insert(mac, s),
            config: if l.config.contains_key(mac) {
                l.config
            } else {
                l.config.insert(mac, stub(mac, s.timeout_sec))
            },
        },
    }
}

/// All sensors that a dongle lists were loaded.
pub open spec fn load_each(l: Loaded, memory: Memory, macs: Seq<Seq<char>>, now: u64) -> Loaded
    decreases macs.len(),
{
    if macs.len() == 0 {
        l
    } else {
        load_one(load_each(l, memory, macs.drop_last(), now), memory, macs.last(), now)
    }
}

/// All sensors that are remembered were loaded; how many that was.
pub open spec fn load_remembered(
    sensors: Sensors,
    config: Settings,
    memory: Memory,
    macs: Seq<Seq<char>>,
    now: u64,
) -> (Sensors, nat)
    decreases macs.len(),
{
    if macs.len() == 0 {
        (sensors, 0)
    } else {
        let (m, n) = load_remembered(sensors, config, memory, macs.drop_last(), now);
        match described(config, memory, macs.last(), now) {
            None => (m, n),
            Some(s) => (m.insert(macs.last(), s), n + 1),
        }
    }
}

/// Builds the sensor that settings and memory describe.
fn describe(mac: &str, config: &SensorsConfig, state: &SystemState, now: u64) -> (r: Option<
    WyzeSensor,
>)
    requires
        config.sensors.wf(),
        state.sensors.wf(),
    ensures
        match r {
            Some(s) => described(config.sensors@, state.sensors@, mac@, now) == Some(s@),
            None => described(config.sensors@, state.sensors@, mac@, now) is None,
        },
{
    let metadata = config.sensors.get(mac);
    let cached = state.sensors.get(mac);
    let name = match metadata {
        Some(m) => m.name.clone(),
        None => make_plain_name(mac),
    };
    let type_str: String = match cached {
        Some(c) => c.sensor_type.clone(),
        None => match metadata {
            Some(m) => match &m.kind {
                Some(k) => k.clone(),
                None => "unknown".to_owned(),
            },
            None => "unknown".to_owned(),
        },
    };
    match WyzeSensor::from_type_str_at(mac.to_owned(), type_str.as_str(), name, now) {
        Err(_) => None,
        Ok(sensor) => {
            let mut s = sensor;
            match metadata {
                Some(m) => {
                    match m.timeout_sec {
                        Some(t) => {
                            s.timeout_sec = t;
                        },
                        None => {},
                    }
                    match &m.sw_version {
                        Some(v) => {
                            s.sw_version = v.clone();
                        },
                        None => {},
                    }
                },
                None => {},
            }
            match cached {
                Some(c) => {
                    restore(&mut s, c);
                },
                None => {},
            }
            Some(s)
        },
    }
}

// ---------------------------------------------------------------------------
// Registration
// ---------------------------------------------------------------------------

/// The name of a sensor that is registered: the user's own, or one after its type.
pub open spec fn registered_name(config: Settings, mac: Seq<char>, t: SensorType) -> Seq<char> {
    if config.contains_key(mac) && !is_made_up(config[mac].name) {
        config[mac].name
    } else {
        typed_name(mac, t)
    }
}

/// A name can be found for the sensor: the user gave it one, or its MAC address has an
/// end to name it after.
pub open spec fn nameable(config: Settings, mac: Seq<char>) -> bool {
    config.contains_key(mac) && !is_made_up(config[mac].name) || has_tail(mac)
}

/// Whether a name can be found for the sensor.
pub fn is_nameable(config: &SensorsConfig, mac: &str) -> (r: bool)
    requires
        config.sensors.wf(),
    ensures
        r == nameable(config.sensors@, mac@),
{
    let own_name: bool = match config.sensors.get(mac) {
        Some(m) => !name_is_made_up(m.name.as_str()),
        None => false,
    };
    own_name || mac_has_tail(mac)
}

/// The timeout of a sensor that is registered: the user's, or that of its type.
pub open spec fn registered_timeout(config: Settings, mac: Seq<char>, t: SensorType) -> u64 {
    if config.contains_key(mac) && config[mac].timeout_sec is Some {
        config[mac].timeout_sec->0
    } else {
        crate::protocol::sensor::default_timeout(t)
    }
}

/// A sensor was registered under its type. It keeps its dongle, and the settings
/// get its name and timeout.
pub open spec fn register(
    l: Loaded,
    mac: Seq<char>,
    t: SensorType,
    version: Option<u8>,
    now: u64,
) -> Loaded {
    let name = registered_name(l.config, mac, t);
    let timeout = registered_timeout(l.config, mac, t);
    let s = SensorView {
        timeout_sec: timeout,
        sw_version: match version {
            Some(v) => text::decimal(v as nat),
            None => "unknown"@,
        },
        dongle_mac: if l.sensors.contains_key(mac) {
            l.sensors[mac].dongle_mac
        } else {
            None
        },
        ..SensorView::fresh(mac, t, name, now)
    };
    Loaded {
        sensors: l.sensors.insert(mac, s),
        config: l.config.insert(
            mac,
            MetadataView {
                name,
                kind: None,
                timeout_sec: Some(timeout),
                sw_version: match version {
                    Some(v) => Some(text::decimal(v as nat)),
                    None => None,
                },
            },
        ),
    }
}

// ---------------------------------------------------------------------------
// Events
// ---------------------------------------------------------------------------

/// What an event asks for before it can be applied.
#[derive(Debug, Copy, Clone, PartialEq, Eq, Structural)]
pub enum Route {
    /// Nothing: it is about a sensor that the bridge does not know, and says nothing
    /// of it that would make it known.
    Ignored,
    /// Nothing: the sensor is known.
    Known,
    /// The sensor is new.
    Registered,
    /// The sensor is known, and from now on its type is, too.
    Upgraded,
}

pub open spec fn route_of(m: Sensors, e: EventView) -> Route {
    if !m.contains_key(e.mac) {
        if e.data is Scanned || e.data is Offline {
            Route::Ignored
        } else {
            Route::Registered
        }
    } else if m[e.mac].sensor_type is Unknown && !(e.sensor_type is Unknown) {
        Route::Upgraded
    } else {
        Route::Known
    }
}

/// The firmware version that an event tells.
pub open spec fn told_version(e: EventView) -> Option<u8> {
    match e.data {
        TelemetryView::Paired { version } => Some(version),
        _ => None,
    }
}

/// A sensor with the dongle of an event, where the event has one.
pub open spec fn associated(s: SensorView, e: EventView) -> SensorView {
    SensorView {
        dongle_mac: if e.dongle_mac is Some {
            e.dongle_mac
        } else {
            s.dongle_mac
        },
        ..s
    }
}

/// What an event asks for was done.
pub open spec fn prepared(l: Loaded, e: EventView, now: u64) -> Loaded {
    let route = route_of(l.sensors, e);
    if route is Registered || route is Upgraded {
        let r = register(l, e.mac, e.sensor_type, told_version(e), now);
        Loaded { sensors: r.sensors.insert(e.mac, associated(r.sensors[e.mac], e)), ..r }
    } else {
        l
    }
}

/// An event was applied to the sensor that it is about.
pub open spec fn applied(m: Sensors, e: EventView) -> Sensors {
    if m.contains_key(e.mac) {
        let s = m[e.mac].after_event(e);
        m.insert(
            e.mac,
            if e.data is Paired {
                associated(s, e)
            } else {
                s
            },
        )
    } else {
        m
    }
}

/// An event that was prepared goes no further: it is ignored, or it told of a new sensor that
/// could not be saved. A type that was learned counts whether it could be saved or not.
pub open spec fn given_up(route: Route, saved: bool) -> bool {
    route is Ignored || route is Registered && !saved
}

/// An event that was prepared was applied, unless it goes no further.
pub open spec fn finished(m: Sensors, e: EventView, route: Route, saved: bool) -> Sensors {
    if given_up(route, saved) {
        m
    } else {
        applied(m, e)
    }
}

/// An event that was prepared goes on, and fits its sensor.
pub open spec fn finishes(m: Sensors, e: EventView, route: Route, saved: bool) -> bool {
    !given_up(route, saved) && m.contains_key(e.mac) && m[e.mac].accepts(e)
}

/// An event was dispatched: prepared, and applied unless it is ignored.
pub open spec fn dispatched(l: Loaded, e: EventView, now: u64) -> Loaded {
    let p = prepared(l, e, now);
    Loaded { sensors: applied(p.sensors, e), ..p }
}

/// The event is about a sensor of the bridge, or makes it one, and fits it.
pub open spec fn takes(l: Loaded, e: EventView, now: u64) -> bool {
    let p = prepared(l, e, now);
    p.sensors.contains_key(e.mac) && p.sensors[e.mac].accepts(e)
}

// ---------------------------------------------------------------------------
// Timeouts and dongles
// ---------------------------------------------------------------------------

/// A sensor that counts as online and has been silent for longer than it may.
pub open spec fn timed_out(s: SensorView, now: u64) -> bool {
    s.is_online && now - s.last_seen > s.timeout_sec
}

/// The sensors with those offline that were silent for too long.
pub open spec fn swept(m: Sensors, now: u64) -> Sensors {
    Map::new(
        |k: Seq<char>| m.contains_key(k),
        |k: Seq<char>|
            if timed_out(m[k], now) {
                SensorView { is_online: false, ..m[k] }
            } else {
                m[k]
            },
    )
}

/// Those of the keys whose sensors were silent for too long.
pub open spec fn expired(m: Sensors, keys: Seq<Seq<char>>, now: u64) -> Seq<Seq<char>>
    decreases keys.len(),
{
    if keys.len() == 0 {
        Seq::empty()
    } else if timed_out(m[keys.last()], now) {
        expired(m, keys.drop_last(), now).push(keys.last())
    } else {
        expired(m, keys.drop_last(), now)
    }
}

/// A dongle lists a sensor: the sensor belongs to it, and is known from now on.
pub open spec fn assign_one(m: Sensors, dongle: Seq<char>, mac: Seq<char>, now: u64) -> Sensors {
    let s = if m.contains_key(mac) {
        m[mac]
    } else {
        SensorView::fresh(mac, SensorType::Unknown(0), plain_name(mac), now)
    };
    m.insert(mac, SensorView { dongle_mac: Some(dongle), ..s })
}

/// A dongle lists its sensors.
pub open spec fn assign_each(
    m: Sensors,
    dongle: Seq<char>,
    macs: Seq<Seq<char>>,
    now: u64,
) -> Sensors
    decreases macs.len(),
{
    if macs.len() == 0 {
        m
    } else {
        assign_one(assign_each(m, dongle, macs.drop_last(), now), dongle, macs.last(), now)
    }
}

/// A dongle is gone: its sensors belong to none.
pub open spec fn unassigned(m: Sensors, dongle: Seq<char>) -> Sensors {
    Map::new(
        |k: Seq<char>| m.contains_key(k),
        |k: Seq<char>|
            if m[k].dongle_mac == Some(dongle) {
                SensorView { dongle_mac: None, ..m[k] }
            } else {
                m[k]
            },
    )
}

// ---------------------------------------------------------------------------
// The manager
// ---------------------------------------------------------------------------

/// The sensors of the bridge, and where their settings and their memory are kept.
#[derive(Debug)]
pub struct SensorManager {
    sensors: Registry<WyzeSensor>,
    config_path: String,
    state_path: String,
}

impl View for SensorManager {
    type V = Sensors;

    closed spec fn view(&self) -> Sensors {
        self.sensors@
    }
}

impl SensorManager {
    /// No sensor stands twice.
    pub closed spec fn wf(&self) -> bool {
        self.sensors.wf()
    }

    /// The MAC addresses in the order in which they came.
    pub closed spec fn keys(&self) -> Seq<Seq<char>> {
        self.sensors.keys()
    }

    /// Where settings and memory are kept.
    pub closed spec fn paths(&self) -> (Seq<char>, Seq<char>) {
        (self.config_path@, self.state_path@)
    }

    /// A manager without sensors.
    pub fn new(config_path: String, state_path: String) -> (r: Self)
        ensures
            r.wf(),
            r@ == Map::<Seq<char>, SensorView>::empty(),
            r.paths() == (config_path@, state_path@),
    {
        SensorManager { sensors: Registry::new(), config_path, state_path }
    }

    pub fn get_sensors(&self) -> (r: &Registry<WyzeSensor>)
        ensures
            r.wf() == self.wf(),
            r@ == self@,
            r.keys() == self.keys(),
    {
        &self.sensors
    }

    pub fn get_sensors_mut(&mut self) -> (r: &mut Registry<WyzeSensor>)
        ensures
            r.wf() == old(self).wf(),
            r@ == old(self)@,
            r.keys() == old(self).keys(),
            final(self).wf() == final(r).wf(),
            final(self)@ == final(r)@,
            final(self).keys() == final(r).keys(),
            final(self).paths() == old(self).paths(),
    {
        &mut self.sensors
    }

    /// Where the settings are kept.
    pub fn config_path(&self) -> (r: &str)
        ensures
            r@ == self.paths().0,
    {
        self.config_path.as_str()
    }

    /// Where the memory is kept.
    pub fn state_path(&self) -> (r: &str)
        ensures
            r@ == self.paths().1,
    {
        self.state_path.as_str()
    }

    /// Loads the sensors that a dongle lists. Says whether the settings got new entries.
    pub fn load_sensors(
        &mut self,
        nvram_macs: &[String],
        config: &mut SensorsConfig,
        state: &SystemState,
        now: u64,
    ) -> (r: bool)
        requires
            old(self).wf(),
            old(config).sensors.wf(),
            state.sensors.wf(),
        ensures
            final(self).wf(),
            final(config).sensors.wf(),
            final(self).paths() == old(self).paths(),
            ({
                let l = load_each(
                    Loaded { sensors: old(self)@, config: old(config).sensors@ },
                    state.sensors@,
                    text::views(nvram_macs@),
                    now,
                );
                final(self)@ == l.sensors && final(config).sensors@ == l.config
            }),
            !r ==> final(config).sensors@ == old(config).sensors@,
            r ==> exists|k: Seq<char>|
                #![auto]
                final(config).sensors@.contains_key(k) && !old(config).sensors@.contains_key(k),
    {
        let ghost start = Loaded { sensors: self@, config: config.sensors@ };
        let ghost macs = text::views(nvram_macs@);
        let mut changed = false;
        let mut i: usize = 0;
        while i < nvram_macs.len()
            invariant
                i <= nvram_macs@.len(),
                self.wf(),
                config.sensors.wf(),
                state.sensors.wf(),
                self.paths() == old(self).paths(),
                start == (Loaded { sensors: old(self)@, config: old(config).sensors@ }),
                macs == text::views(nvram_macs@),
                load_each(start, state.sensors@, macs.subrange(0, i as int), now) == (Loaded {
                    sensors: self@,
                    config: config.sensors@,
                }),
                !changed ==> config.sensors@ == start.config,
                changed ==> exists|k: Seq<char>|
                    #![auto]
                    config.sensors@.contains_key(k) && !start.config.contains_key(k),
                forall|k: Seq<char>|
                    #![auto]
                    start.config.contains_key(k) ==> config.sensors@.contains_key(k),
            decreases nvram_macs@.len() - i,
        {
            let mac = nvram_macs[i].as_str();
            proof {
                let w = macs.subrange(0, i + 1);
                assert(w.drop_last() =~= macs.subrange(0, i as int));
                assert(w.last() == mac@);
            }
            match describe(mac, config, state, now) {
                Some(sensor) => {
                    if !config.sensors.contains_key(mac) {
                        let entry = SensorMetadata {
                            name: make_plain_name(mac),
                            kind: None,
                            timeout_sec: Some(sensor.timeout_sec),
                            sw_version: None,
                        };
                        config.sensors.insert(mac.to_owned(), entry);
                        changed = true;
                        proof {
                            assert(config.sensors@.contains_key(mac@));
                            assert(!start.config.contains_key(mac@));
                        }
                    }
                    self.sensors.insert(mac.to_owned(), sensor);
                },
                None => {},
            }
            i += 1;
        }
        proof {
            assert(macs.subrange(0, macs.len() as int) =~= macs);
        }
        changed
    }

    /// Loads every sensor that is remembered. Says how many that was.
    pub fn load_all_from_state(&mut self, config: &SensorsConfig, state: &SystemState, now: u64) -> (r:
        usize)
        requires
            old(self).wf(),
            config.sensors.wf(),
            state.sensors.wf(),
        ensures
            final(self).wf(),
            final(self).paths() == old(self).paths(),
            (final(self)@, r as nat) == load_remembered(
                old(self)@,
                config.sensors@,
                state.sensors@,
                state.sensors.keys(),
                now,
            ),
    {
        let ghost macs = state.sensors.keys();
        let mut count: usize = 0;
        let mut i: usize = 0;
        while i < state.sensors.len()
            invariant
                i <= macs.len(),
                count <= i,
                self.wf(),
                config.sensors.wf(),
                state.sensors.wf(),
                self.paths() == old(self).paths(),
                macs == state.sensors.keys(),
                (self@, count as nat) == load_remembered(
                    old(self)@,
                    config.sensors@,
                    state.sensors@,
                    macs.subrange(0, i as int),
                    now,
                ),
            decreases macs.len() - i,
        {
            let mac = state.sensors.key(i);
            proof {
                let w = macs.subrange(0, i + 1);
                assert(w.drop_last() =~= macs.subrange(0, i as int));
                assert(w.last() == mac@);
            }
            match describe(mac, config, state, now) {
                Some(sensor) => {
                    self.sensors.insert(mac.to_owned(), sensor);
                    count += 1;
                },
                None => {},
            }
            i += 1;
        }
        proof {
            assert(macs.subrange(0, macs.len() as int) =~= macs);
        }
        count
    }

    /// What is to be remembered of all sensors.
    pub fn snapshot(&self) -> (r: SystemState)
        requires
            self.wf(),
        ensures
            r.sensors.wf(),
            r.sensors@ == records(self@),
            r.sensors.keys() == self.keys(),
    {
        let mut state = SystemState::default();
        let ghost keys = self.keys();
        proof {
            self.sensors.lemma_keys();
        }
        let mut i: usize = 0;
        while i < self.sensors.len()
            invariant
                i <= keys.len(),
                self.wf(),
                keys == self.keys(),
                keys.no_duplicates(),
                state.sensors.wf(),
                state.sensors.keys() == keys.subrange(0, i as int),
                forall|k: Seq<char>|
                    #![auto]
                    state.sensors@.contains_key(k) <==> keys.subrange(0, i as int).contains(k),
                forall|k: Seq<char>|
                    #![auto]
                    state.sensors@.contains_key(k) ==> self@.contains_key(k) && state.sensors@[k]
                        == record(k, self@[k]),
            decreases keys.len() - i,
        {
            let mac = self.sensors.key(i);
            let r = make_record(mac, self.sensors.value(i));
            let ghost seen = keys.subrange(0, i as int);
            proof {
                assert(keys.subrange(0, i + 1) =~= seen.push(mac@));
                if seen.contains(mac@) {
                    let j = seen.index_of(mac@);
                    assert(keys[j] == keys[i as int]);
                }
                assert forall|k: Seq<char>| seen.push(mac@).contains(k) <==> (seen.contains(k) || k
                    == mac@) by {
                    if seen.contains(k) {
                        let j = seen.index_of(k);
                        assert(seen.push(mac@)[j] == k);
                    }
                    assert(seen.push(mac@)[seen.len() as int] == mac@);
                }
            }
            state.sensors.insert(mac.to_owned(), r);
            i += 1;
        }
        proof {
            assert(keys.subrange(0, keys.len() as int) =~= keys);
            self.sensors.lemma_keys();
            assert(state.sensors@ =~= records(self@));
        }
        state
    }

    /// Registers a sensor under its type, and puts its name and timeout into the settings.
    pub fn register_and_persist_sensor(
        &mut self,
        config: &mut SensorsConfig,
        mac: String,
        sensor_type: SensorType,
        version: Option<u8>,
        now: u64,
    )
        requires
            old(self).wf(),
            old(config).sensors.wf(),
            nameable(old(config).sensors@, mac@),
        ensures
            final(self).wf(),
            final(config).sensors.wf(),
            final(self).paths() == old(self).paths(),
            ({
                let l = register(
                    Loaded { sensors: old(self)@, config: old(config).sensors@ },
                    mac@,
                    sensor_type,
                    version,
                    now,
                );
                final(self)@ == l.sensors && final(config).sensors@ == l.config
            }),
    {
        let existing = config.sensors.get(mac.as_str());
        let name = match existing {
            Some(m) => if name_is_made_up(m.name.as_str()) {
                make_typed_name(mac.as_str(), sensor_type)
            } else {
                m.name.clone()
            },
            None => make_typed_name(mac.as_str(), sensor_type),
        };
        let custom_timeout: Option<u64> = match existing {
            Some(m) => m.timeout_sec,
            None => None,
        };
        let mut sensor = WyzeSensor::new_at(mac.clone(), sensor_type, name.clone(), now);
        let sw_version: Option<String> = match version {
            Some(v) => Some(text::to_decimal(v as u64)),
            None => None,
        };
        match &sw_version {
            Some(v) => {
                sensor.sw_version = v.clone();
            },
            None => {},
        }
        match custom_timeout {
            Some(t) => {
                sensor.timeout_sec = t;
            },
            None => {},
        }
        match self.sensors.get(mac.as_str()) {
            Some(s) => {
                sensor.dongle_mac = text::copy_option(&s.dongle_mac);
            },
            None => {},
        }
        let entry = SensorMetadata {
            name,
            kind: None,
            timeout_sec: Some(sensor.timeout_sec),
            sw_version,
        };
        config.sensors.insert(mac.clone(), entry);
        self.sensors.insert(mac, sensor);
    }

    /// Removes a sensor, and what the user says of it. Says whether the settings changed.
    pub fn delete_and_persist_sensor(&mut self, config: &mut SensorsConfig, mac: &str) -> (r: bool)
        requires
            old(self).wf(),
            old(config).sensors.wf(),
        ensures
            final(self).wf(),
            final(config).sensors.wf(),
            final(self).paths() == old(self).paths(),
            final(self)@ == old(self)@.remove(mac@),
            final(config).sensors@ == old(config).sensors@.remove(mac@),
            r == old(config).sensors@.contains_key(mac@),
    {
        self.sensors.remove(mac);
        config.sensors.remove(mac)
    }

    /// What an event asks for before it can be applied.
    pub fn route(&self, event: &DongleEvent) -> (r: Route)
        requires
            self.wf(),
        ensures
            r == route_of(self@, event@),
    {
        match self.sensors.get(event.mac.as_str()) {
            None => match &event.data {
                TelemetryData::Scanned { .. } | TelemetryData::Offline => Route::Ignored,
                _ => Route::Registered,
            },
            Some(s) => match (s.sensor_type, event.sensor_type) {
                (SensorType::Unknown(_), SensorType::Unknown(_)) => Route::Known,
                (SensorType::Unknown(_), _) => Route::Upgraded,
                _ => Route::Known,
            },
        }
    }

    /// Does what an event asks for: a new sensor is registered, and so is one whose
    /// type is told for the first time.
    pub fn prepare_event(
        &mut self,
        event: &DongleEvent,
        config: &mut SensorsConfig,
        now: u64,
    ) -> (r: Route)
        requires
            old(self).wf(),
            old(config).sensors.wf(),
            route_of(old(self)@, event@) is Registered || route_of(old(self)@, event@) is Upgraded
                ==> nameable(old(config).sensors@, event.mac@),
        ensures
            final(self).wf(),
            final(config).sensors.wf(),
            final(self).paths() == old(self).paths(),
            r == route_of(old(self)@, event@),
            ({
                let l = prepared(
                    Loaded { sensors: old(self)@, config: old(config).sensors@ },
                    event@,
                    now,
                );
                final(self)@ == l.sensors && final(config).sensors@ == l.config
            }),
    {
        let route = self.route(event);
        match route {
            Route::Registered | Route::Upgraded => {
                let version: Option<u8> = match &event.data {
                    TelemetryData::Paired { version } => Some(*version),
                    _ => None,
                };
                self.register_and_persist_sensor(config, event.mac.clone(), event.sensor_type, version, now);
                self.associate(event);
            },
            _ => {},
        }
        route
    }

    fn associate(&mut self, event: &DongleEvent)
        requires
            old(self).wf(),
            old(self)@.contains_key(event.mac@),
        ensures
            final(self).wf(),
            final(self).paths() == old(self).paths(),
            final(self)@ == old(self)@.insert(
                event.mac@,
                associated(old(self)@[event.mac@], event@),
            ),
    {
        let ghost before = self@;
        if event.dongle_mac.is_some() {
            match self.sensors.get_mut(event.mac.as_str()) {
                Some(s) => {
                    s.dongle_mac = text::copy_option(&event.dongle_mac);
                },
                None => {},
            }
        }
        proof {
            assert(self@ =~= before.insert(
                event.mac@,
                associated(before[event.mac@], event@),
            ));
        }
    }

    /// Applies an event to the sensor that it is about. Says whether there is one that
    /// the event fits.
    pub fn apply_event(&mut self, event: &DongleEvent) -> (r: bool)
        requires
            old(self).wf(),
        ensures
            final(self).wf(),
            final(self).paths() == old(self).paths(),
            final(self)@ == applied(old(self)@, event@),
            r == (old(self)@.contains_key(event.mac@) && old(self)@[event.mac@].accepts(event@)),
    {
        let ghost before = self@;
        let ok: bool = match self.sensors.get_mut(event.mac.as_str()) {
            Some(s) => match s.update_from_event(event) {
                Ok(_) => true,
                Err(_) => false,
            },
            None => {
                return false;
            },
        };
        match &event.data {
            TelemetryData::Paired { .. } => {
                self.associate(event);
            },
            _ => {},
        }
        proof {
            assert(self@ =~= applied(before, event@));
        }
        ok
    }

    /// Finishes an event that was prepared, by whether what it registered could be saved. Says
    /// whether there is a sensor that the event fits.
    pub fn finish_event(&mut self, event: &DongleEvent, route: Route, saved: bool) -> (r: bool)
        requires
            old(self).wf(),
        ensures
            final(self).wf(),
            final(self).paths() == old(self).paths(),
            final(self)@ == finished(old(self)@, event@, route, saved),
            r == finishes(old(self)@, event@, route, saved),
    {
        match (route, saved) {
            (Route::Ignored, _) => false,
            (Route::Registered, false) => false,
            _ => self.apply_event(event),
        }
    }

    /// Dispatches an event: registers its sensor where that is called for, and applies
    /// the event to it, where nothing fails to be saved. Says whether there is a sensor that
    /// the event fits.
    pub fn dispatch_event(
        &mut self,
        event: &DongleEvent,
        config: &mut SensorsConfig,
        now: u64,
    ) -> (r: bool)
        requires
            old(self).wf(),
            old(config).sensors.wf(),
            route_of(old(self)@, event@) is Registered || route_of(old(self)@, event@) is Upgraded
                ==> nameable(old(config).sensors@, event.mac@),
        ensures
            final(self).wf(),
            final(config).sensors.wf(),
            final(self).paths() == old(self).paths(),
            ({
                let l = Loaded { sensors: old(self)@, config: old(config).sensors@ };
                &&& final(self)@ == dispatched(l, event@, now).sensors
                &&& final(config).sensors@ == dispatched(l, event@, now).config
                &&& r == takes(l, event@, now)
            }),
    {
        let route = self.prepare_event(event, config, now);
        self.finish_event(event, route, true)
    }

    /// Marks the sensors offline that were silent for too long at the given second, and
    /// says which they are.
    pub fn check_timeouts_at(&mut self, now: u64) -> (r: Vec<String>)
        requires
            old(self).wf(),
        ensures
            final(self).wf(),
            final(self).paths() == old(self).paths(),
            final(self).keys() == old(self).keys(),
            final(self)@ == swept(old(self)@, now),
            text::views(r@) == expired(old(self)@, old(self).keys(), now),
    {
        let ghost m = self@;
        let ghost keys = self.keys();
        proof {
            self.sensors.lemma_keys();
        }
        let mut gone: Vec<String> = Vec::new();
        proof {
            assert(text::views(gone@) =~= Seq::empty());
        }
        let mut i: usize = 0;
        while i < self.sensors.len()
            invariant
                i <= keys.len(),
                self.wf(),
                self.paths() == old(self).paths(),
                self.keys() == keys,
                keys == old(self).keys(),
                m == old(self)@,
                keys.no_duplicates(),
                forall|k: Seq<char>| #![auto] keys.contains(k) == m.contains_key(k),
                forall|k: Seq<char>| #![auto] self@.contains_key(k) == m.contains_key(k),
                forall|j: int|
                    #![auto]
                    0 <= j < i ==> self@[keys[j]] == swept(m, now)[keys[j]],
                forall|j: int| #![auto] i <= j < keys.len() ==> self@[keys[j]] == m[keys[j]],
                text::views(gone@) == expired(m, keys.subrange(0, i as int), now),
            decreases keys.len() - i,
        {
            let ghost seen = keys.subrange(0, i as int);
            proof {
                let w = keys.subrange(0, i + 1);
                assert(w.drop_last() =~= seen);
                assert(w.last() == keys[i as int]);
                assert(keys.contains(keys[i as int]));
            }
            let s = self.sensors.value(i);
            if s.is_online && now > s.last_seen && now - s.last_seen > s.timeout_sec {
                let mac = self.sensors.key(i).to_owned();
                let ghost g = gone@;
                gone.push(mac);
                proof {
                    assert(text::views(gone@) =~= text::views(g).push(keys[i as int]));
                }
                let t = self.sensors.value_mut(i);
                t.is_online = false;
            }
            i += 1;
        }
        proof {
            assert(keys.subrange(0, keys.len() as int) =~= keys);
            assert forall|k: Seq<char>| #![auto] m.contains_key(k) implies self@[k] == swept(
                m,
                now,
            )[k] by {
                assert(keys.contains(k));
                let j = keys.index_of(k);
                assert(keys[j] == k);
            }
            assert(self@ =~= swept(m, now));
        }
        gone
    }

    /// Marks the sensors offline that were silent for too long by now, and says which
    /// they are. Nothing is known of the time at which this is asked.
    pub fn check_timeouts(&mut self) -> (r: Vec<String>)
        requires
            old(self).wf(),
        ensures
            final(self).wf(),
            final(self).paths() == old(self).paths(),
            final(self).keys() == old(self).keys(),
            exists|now: u64|
                #![auto]
                final(self)@ == swept(old(self)@, now) && text::views(r@) == expired(
                    old(self)@,
                    old(self).keys(),
                    now,
                ),
    {
        self.check_timeouts_at(clock::now_ms() / 1000)
    }

    /// The event that tells that a sensor was silent for too long; the type of a sensor
    /// that is gone is not known.
    pub fn offline_event(&self, mac: &str, now_ms: u64) -> (r: DongleEvent)
        requires
            self.wf(),
        ensures
            r@ == (EventView {
                mac: mac@,
                timestamp: now_ms,
                sensor_type: if self@.contains_key(mac@) {
                    self@[mac@].sensor_type
                } else {
                    SensorType::Unknown(0)
                },
                event_type: 0,
                data: TelemetryView::Offline,
                dongle_mac: None,
            }),
    {
        let sensor_type = match self.sensors.get(mac) {
            Some(s) => s.sensor_type,
            None => SensorType::Unknown(0),
        };
        DongleEvent::offline(mac.to_owned(), sensor_type, now_ms)
    }

    /// A dongle lists its sensors: they belong to it, and are known from now on.
    pub fn assign_dongle_at(&mut self, dongle_mac: &str, sensor_macs: &[String], now: u64)
        requires
            old(self).wf(),
        ensures
            final(self).wf(),
            final(self).paths() == old(self).paths(),
            final(self)@ == assign_each(old(self)@, dongle_mac@, text::views(sensor_macs@), now),
    {
        let ghost m = self@;
        let ghost macs = text::views(sensor_macs@);
        let mut i: usize = 0;
        while i < sensor_macs.len()
            invariant
                i <= sensor_macs@.len(),
                self.wf(),
                self.paths() == old(self).paths(),
                macs == text::views(sensor_macs@),
                m == old(self)@,
                self@ == assign_each(m, dongle_mac@, macs.subrange(0, i as int), now),
            decreases sensor_macs@.len() - i,
        {
            let mac = sensor_macs[i].as_str();
            let ghost before = self@;
            proof {
                let w = macs.subrange(0, i + 1);
                assert(w.drop_last() =~= macs.subrange(0, i as int));
                assert(w.last() == mac@);
            }
            if self.sensors.contains_key(mac) {
                match self.sensors.get_mut(mac) {
                    Some(s) => {
                        s.dongle_mac = Some(dongle_mac.to_owned());
                    },
                    None => {},
                }
            } else {
                let mut s = WyzeSensor::new_at(
                    mac.to_owned(),
                    SensorType::Unknown(0),
                    make_plain_name(mac),
                    now,
                );
                s.dongle_mac = Some(dongle_mac.to_owned());
                self.sensors.insert(mac.to_owned(), s);
            }
            proof {
                assert(self@ =~= assign_one(before, dongle_mac@, mac@, now));
            }
            i += 1;
        }
        proof {
            assert(macs.subrange(0, macs.len() as int) =~= macs);
        }
    }

    /// A dongle lists its sensors just now, of which moment nothing is known.
    pub fn assign_dongle(&mut self, dongle_mac: &str, sensor_macs: &[String])
        requires
            old(self).wf(),
        ensures
            final(self).wf(),
            final(self).paths() == old(self).paths(),
            exists|now: u64|
                #![auto]
                final(self)@ == assign_each(
                    old(self)@,
                    dongle_mac@,
                    text::views(sensor_macs@),
                    now,
                ),
    {
        self.assign_dongle_at(dongle_mac, sensor_macs, clock::now_ms() / 1000);
    }

    /// A dongle is gone: its sensors belong to none.
    pub fn unassign_dongle(&mut self, dongle_mac: &str)
        requires
            old(self).wf(),
        ensures
            final(self).wf(),
            final(self).paths() == old(self).paths(),
            final(self).keys() == old(self).keys(),
            final(self)@ == unassigned(old(self)@, dongle_mac@),
    {
        let ghost m = self@;
        let ghost keys = self.keys();
        proof {
            self.sensors.lemma_keys();
        }
        let mut i: usize = 0;
        while i < self.sensors.len()
            invariant
                i <= keys.len(),
                self.wf(),
                self.paths() == old(self).paths(),
                self.keys() == keys,
                keys == old(self).keys(),
                m == old(self)@,
                keys.no_duplicates(),
                forall|k: Seq<char>| #![auto] keys.contains(k) == m.contains_key(k),
                forall|k: Seq<char>| #![auto] self@.contains_key(k) == m.contains_key(k),
                forall|j: int|
                    #![auto]
                    0 <= j < i ==> self@[keys[j]] == unassigned(m, dongle_mac@)[keys[j]],
                forall|j: int| #![auto] i <= j < keys.len() ==> self@[keys[j]] == m[keys[j]],
            decreases keys.len() - i,
        {
            proof {
                assert(keys.contains(keys[i as int]));
            }
            let owned: bool = match &self.sensors.value(i).dongle_mac {
                Some(d) => text::same(d.as_str(), dongle_mac),
                None => false,
            };
            if owned {
                let s = self.sensors.value_mut(i);
                s.dongle_mac = None;
            }
            i += 1;
        }
        proof {
            assert forall|k: Seq<char>| #![auto] m.contains_key(k) implies self@[k] == unassigned(
                m,
                dongle_mac@,
            )[k] by {
                assert(keys.contains(k));
                let j = keys.index_of(k);
                assert(keys[j] == k);
            }
            assert(self@ =~= unassigned(m, dongle_mac@));
        }
    }
}

// ---------------------------------------------------------------------------
// Laws
// ---------------------------------------------------------------------------

/// The MAC addresses of a manager are those of its sensors, each once.
pub proof fn law_each_sensor_has_one_key(manager: &SensorManager)
    requires
        manager.wf(),
    ensures
        manager.keys().no_duplicates(),
        forall|k: Seq<char>| #[trigger] manager.keys().contains(k) == manager@.contains_key(k),
{
    manager.sensors.lemma_keys();
}

/// What is remembered brings a sensor back: its type, readings, state and dongle are
/// what they were. Only a byte of an unknown type is lost.
pub proof fn law_memory_brings_back(m: Sensors, config: Settings, mac: Seq<char>, now: u64)
    requires
        m.contains_key(mac),
        m[mac].battery_pct is Some || m[mac].sensor_type is Chime,
    ensures
        described(config, records(m), mac, now) is Some,
        ({
            let s = described(config, records(m), mac, now)->0;
            &&& s.mac == mac
            &&& s.sensor_type == if m[mac].sensor_type is Unknown {
                SensorType::Unknown(0)
            } else {
                m[mac].sensor_type
            }
            &&& s.battery_pct == m[mac].battery_pct
            &&& s.battery_raw == m[mac].battery_raw
            &&& s.rssi_dbm == m[mac].rssi_dbm
            &&& s.die_temperature_c == m[mac].die_temperature_c
            &&& s.event_sequence == m[mac].event_sequence
            &&& s.last_seen == m[mac].last_seen
            &&& s.state == m[mac].state
            &&& s.dongle_mac == m[mac].dongle_mac
        }),
{
    crate::protocol::telemetry::law_sensor_names(m[mac].sensor_type);
}

/// A sensor that was deleted is not remembered.
pub proof fn law_deleted_is_forgotten(m: Sensors, mac: Seq<char>)
    ensures
        records(m.remove(mac)) == records(m).remove(mac),
{
    assert(records(m.remove(mac)) =~= records(m).remove(mac));
}

/// An event touches the sensor that it is about and no other, in the registry and in
/// the settings, and no sensor is lost.
pub proof fn law_event_touches_one_sensor(l: Loaded, e: EventView, now: u64, k: Seq<char>)
    requires
        k != e.mac,
    ensures
        dispatched(l, e, now).sensors.contains_key(k) == l.sensors.contains_key(k),
        l.sensors.contains_key(k) ==> dispatched(l, e, now).sensors[k] == l.sensors[k],
        dispatched(l, e, now).config.contains_key(k) == l.config.contains_key(k),
        l.config.contains_key(k) ==> dispatched(l, e, now).config[k] == l.config[k],
        l.sensors.contains_key(e.mac) ==> dispatched(l, e, now).sensors.contains_key(e.mac),
{
}

/// A scan or a timeout of a sensor that is not known changes nothing.
pub proof fn law_stranger_stays_unknown(l: Loaded, e: EventView, now: u64)
    requires
        !l.sensors.contains_key(e.mac),
        e.data is Scanned || e.data is Offline,
    ensures
        dispatched(l, e, now) == l,
        !takes(l, e, now),
{
}

/// Any other event makes its sensor known, under the type and the dongle that it names.
pub proof fn law_event_makes_known(l: Loaded, e: EventView, now: u64)
    requires
        !l.sensors.contains_key(e.mac),
        !(e.data is Scanned || e.data is Offline),
    ensures
        dispatched(l, e, now).sensors.contains_key(e.mac),
        dispatched(l, e, now).sensors[e.mac].sensor_type == e.sensor_type,
        dispatched(l, e, now).sensors[e.mac].dongle_mac == e.dongle_mac,
        dispatched(l, e, now).config.contains_key(e.mac),
{
}

/// A type that is known stays; one that is not gives way to the type that an event names.
pub proof fn law_type_is_learned_once(l: Loaded, e: EventView, now: u64)
    requires
        l.sensors.contains_key(e.mac),
    ensures
        ({
            let t = l.sensors[e.mac].sensor_type;
            dispatched(l, e, now).sensors[e.mac].sensor_type == if t is Unknown && !(
            e.sensor_type is Unknown) {
                e.sensor_type
            } else {
                t
            }
        }),
{
}

/// A sensor keeps its dongle whatever it sends, unless the event pairs it with one or
/// is the first to name its type.
pub proof fn law_event_keeps_dongle(l: Loaded, e: EventView, now: u64)
    requires
        l.sensors.contains_key(e.mac),
        e.dongle_mac is None || !(e.data is Paired) && !(route_of(l.sensors, e) is Upgraded),
    ensures
        dispatched(l, e, now).sensors[e.mac].dongle_mac == l.sensors[e.mac].dongle_mac,
{
}

/// A pairing puts the sensor under the dongle that it names.
pub proof fn law_pairing_associates(l: Loaded, e: EventView, now: u64)
    requires
        e.data is Paired,
        e.dongle_mac is Some,
    ensures
        dispatched(l, e, now).sensors.contains_key(e.mac),
        dispatched(l, e, now).sensors[e.mac].dongle_mac == e.dongle_mac,
{
}

/// A name of the user's own survives registration, and so does a timeout.
pub proof fn law_registration_keeps_settings(
    l: Loaded,
    mac: Seq<char>,
    t: SensorType,
    version: Option<u8>,
    now: u64,
)
    requires
        l.config.contains_key(mac),
    ensures
        !is_made_up(l.config[mac].name) ==> register(l, mac, t, version, now).config[mac].name
            == l.config[mac].name,
        l.config[mac].timeout_sec is Some ==> register(l, mac, t, version, now).config[mac].timeout_sec
            == l.config[mac].timeout_sec,
        register(l, mac, t, version, now).sensors[mac].friendly_name == register(
            l,
            mac,
            t,
            version,
            now,
        ).config[mac].name,
{
}

proof fn lemma_differs_at(s: Seq<char>, p: Seq<char>, i: int)
    requires
        0 <= i < p.len(),
        i < s.len(),
        s[i] != p[i],
    ensures
        !text::has_prefix(s, p),
{
    if text::has_prefix(s, p) {
        assert(s.subrange(0, p.len() as int)[i] == s[i]);
    }
}

/// A name after a known type counts as the sensor's own: registering the sensor again
/// keeps it.
pub proof fn law_typed_name_is_kept(mac: Seq<char>, t: SensorType)
    requires
        !(t is Unknown),
    ensures
        !is_made_up(typed_name(mac, t)),
{
    reveal_strlit("Wyze ");
    reveal_strlit(" ");
    reveal_strlit("Wyze Sense");
    reveal_strlit("Wyze Sensor");
    reveal_strlit("Wyze UNKNOWN");
    reveal_strlit("SWITCH");
    reveal_strlit("SWITCHV2");
    reveal_strlit("MOTION");
    reveal_strlit("MOTIONV2");
    reveal_strlit("LEAK");
    reveal_strlit("CLIMATE");
    reveal_strlit("CHIME");
    let n = typed_name(mac, t);
    let c = capital_name(t);
    assert(c.len() >= 4);
    assert(n[5] == c[0]);
    assert(n[6] == c[1]);
    assert("Wyze Sense"@[6] == 'e' && "Wyze Sensor"@[6] == 'e' && "Wyze UNKNOWN"@[5] == 'U');
    if t is LeakV2 {
        assert(c[0] == 'L');
        assert("Wyze Sense"@[5] == 'S' && "Wyze Sensor"@[5] == 'S');
        lemma_differs_at(n, "Wyze Sense"@, 5);
        lemma_differs_at(n, "Wyze Sensor"@, 5);
    } else {
        assert(c[1] != 'e');
        lemma_differs_at(n, "Wyze Sense"@, 6);
        lemma_differs_at(n, "Wyze Sensor"@, 6);
    }
    assert(c[0] != 'U');
    lemma_differs_at(n, "Wyze UNKNOWN"@, 5);
}

/// A sweep only takes sensors offline, and it takes exactly those that were silent for
/// longer than they may.
pub proof fn law_sweep_only_takes_offline(m: Sensors, now: u64, k: Seq<char>)
    requires
        m.contains_key(k),
    ensures
        swept(m, now).dom() == m.dom(),
        swept(m, now)[k] == (SensorView { is_online: swept(m, now)[k].is_online, ..m[k] }),
        swept(m, now)[k].is_online == (m[k].is_online && now - m[k].last_seen <= m[k].timeout_sec),
{
    assert(swept(m, now).dom() =~= m.dom());
}

/// A sweep reports each sensor once: at the same moment a second one finds nothing.
pub proof fn law_sweep_reports_once(m: Sensors, keys: Seq<Seq<char>>, now: u64)
    requires
        forall|i: int| 0 <= i < keys.len() ==> m.contains_key(#[trigger] keys[i]),
    ensures
        expired(swept(m, now), keys, now) == Seq::<Seq<char>>::empty(),
        swept(swept(m, now), now) == swept(m, now),
    decreases keys.len(),
{
    assert(swept(swept(m, now), now) =~= swept(m, now));
    if keys.len() > 0 {
        let k = keys.drop_last();
        assert forall|i: int| 0 <= i < k.len() implies m.contains_key(#[trigger] k[i]) by {
            assert(k[i] == keys[i]);
        }
        law_sweep_reports_once(m, k, now);
        assert(m.contains_key(keys[keys.len() - 1]));
    }
}

/// What a sweep reports are the sensors that it takes offline.
pub proof fn law_sweep_reports_those_taken(m: Sensors, keys: Seq<Seq<char>>, now: u64, k: Seq<char>)
    requires
        forall|i: int| 0 <= i < keys.len() ==> m.contains_key(#[trigger] keys[i]),
    ensures
        expired(m, keys, now).contains(k) <==> keys.contains(k) && m[k].is_online && !swept(
            m,
            now,
        )[k].is_online,
    decreases keys.len(),
{
    if keys.len() > 0 {
        let d = keys.drop_last();
        assert forall|i: int| 0 <= i < d.len() implies m.contains_key(#[trigger] d[i]) by {
            assert(d[i] == keys[i]);
        }
        law_sweep_reports_those_taken(m, d, now, k);
        let e = expired(m, d, now);
        assert(m.contains_key(keys[keys.len() - 1]));
        assert(keys.contains(k) <==> d.contains(k) || k == keys.last()) by {
            if d.contains(k) {
                assert(keys[d.index_of(k)] == k);
            }
            if keys.contains(k) {
                let j = keys.index_of(k);
                if j < d.len() {
                    assert(d[j] == k);
                }
            }
            assert(keys[keys.len() - 1] == keys.last());
        }
        assert(e.push(keys.last()).contains(k) <==> e.contains(k) || k == keys.last()) by {
            if e.contains(k) {
                assert(e.push(keys.last())[e.index_of(k)] == k);
            }
            assert(e.push(keys.last())[e.len() as int] == keys.last());
        }
    }
}

/// Every sensor that a dongle lists belongs to it, and nothing else of a sensor that was
/// known changes; the sensors that it does not list stay as they are.
pub proof fn law_listed_sensors_belong_to_dongle(
    m: Sensors,
    dongle: Seq<char>,
    macs: Seq<Seq<char>>,
    now: u64,
    k: Seq<char>,
)
    ensures
        macs.contains(k) ==> assign_each(m, dongle, macs, now).contains_key(k)
            && assign_each(m, dongle, macs, now)[k].dongle_mac == Some(dongle),
        macs.contains(k) && m.contains_key(k) ==> assign_each(m, dongle, macs, now)[k] == (
        SensorView { dongle_mac: Some(dongle), ..m[k] }),
        !macs.contains(k) ==> assign_each(m, dongle, macs, now).contains_key(k)
            == m.contains_key(k) && (m.contains_key(k) ==> assign_each(m, dongle, macs, now)[k]
            == m[k]),
    decreases macs.len(),
{
    if macs.len() > 0 {
        let d = macs.drop_last();
        law_listed_sensors_belong_to_dongle(m, dongle, d, now, k);
        assert(macs.contains(k) <==> d.contains(k) || k == macs.last()) by {
            if d.contains(k) {
                assert(macs[d.index_of(k)] == k);
            }
            if macs.contains(k) {
                let j = macs.index_of(k);
                if j < d.len() {
                    assert(d[j] == k);
                }
            }
            assert(macs[macs.len() - 1] == macs.last());
        }
    }
}

/// When a dongle is gone no sensor belongs to it, and nothing else of any sensor changes.
pub proof fn law_gone_dongle_owns_nothing(m: Sensors, dongle: Seq<char>, k: Seq<char>)
    requires
        m.contains_key(k),
    ensures
        unassigned(m, dongle).dom() == m.dom(),
        unassigned(m, dongle)[k].dongle_mac != Some(dongle),
        unassigned(m, dongle)[k] == (SensorView {
            dongle_mac: unassigned(m, dongle)[k].dongle_mac,
            ..m[k]
        }),
        m[k].dongle_mac != Some(dongle) ==> unassigned(m, dongle)[k] == m[k],
{
    assert(unassigned(m, dongle).dom() =~= m.dom());
}

/// A sensor whose dongle is gone can move to another one that lists it.
pub proof fn law_sensor_moves_to_another_dongle(
    m: Sensors,
    gone: Seq<char>,
    other: Seq<char>,
    k: Seq<char>,
    now: u64,
)
    requires
        m.contains_key(k),
    ensures
        assign_each(unassigned(m, gone), other, seq![k], now)[k] == (SensorView {
            dongle_mac: Some(other),
            ..m[k]
        }),
{
    let macs = seq![k];
    assert(macs[0] == k);
    assert(macs.contains(k));
    law_gone_dongle_owns_nothing(m, gone, k);
    law_listed_sensors_belong_to_dongle(unassigned(m, gone), other, macs, now, k);
}

/// Loading what a dongle lists leaves the settings that the user wrote alone.
pub proof fn law_loading_keeps_settings(
    l: Loaded,
    memory: Memory,
    macs: Seq<Seq<char>>,
    now: u64,
    k: Seq<char>,
)
    requires
        l.config.contains_key(k),
    ensures
        load_each(l, memory, macs, now).config.contains_key(k),
        load_each(l, memory, macs, now).config[k] == l.config[k],
    decreases macs.len(),
{
    if macs.len() > 0 {
        law_loading_keeps_settings(l, memory, macs.drop_last(), now, k);
    }
}

/// The name that the bridge makes up of a sensor of known type: the type in capitals, and the
/// last four bytes of the address.
pub proof fn law_made_up_names(mac: Seq<char>, t: SensorType)
    ensures
        plain_name(mac) == "Wyze Sense "@ + mac,
        typed_name(mac, t) == "Wyze "@ + capital_name(t) + " "@ + tail(mac),
        text::same_ignoring_ascii_case(capital_name(t), t.name()),
        forall|i: int|
            0 <= i < capital_name(t).len() ==> {
                let c = #[trigger] capital_name(t)[i];
                'A' <= c <= 'Z' || '0' <= c <= '9'
            },
        has_tail(mac) ==> encode_utf8(tail(mac)) == encode_utf8(mac).subrange(
            encode_utf8(mac).len() - 4,
            encode_utf8(mac).len() as int,
        ),
        is_made_up(plain_name(mac)),
{
    reveal_strlit("SWITCH");
    reveal_strlit("SWITCHV2");
    reveal_strlit("MOTION");
    reveal_strlit("MOTIONV2");
    reveal_strlit("LEAK");
    reveal_strlit("CLIMATE");
    reveal_strlit("CHIME");
    reveal_strlit("UNKNOWN");
    reveal_strlit("switch");
    reveal_strlit("switchv2");
    reveal_strlit("motion");
    reveal_strlit("motionv2");
    reveal_strlit("leak");
    reveal_strlit("climate");
    reveal_strlit("chime");
    reveal_strlit("unknown");
    reveal_strlit("Wyze Sense ");
    reveal_strlit("Wyze Sense");
    let n = plain_name(mac);
    assert(n.subrange(0, "Wyze Sense"@.len() as int) =~= "Wyze Sense"@);
    if has_tail(mac) {
        let b = encode_utf8(mac);
        let cut = b.subrange(b.len() - 4, b.len() as int);
        encode_utf8_valid_utf8(mac);
        lemma_tail_is_text(mac);
        decode_utf8_encode_utf8(cut);
    }
}

proof fn lemma_tail_is_text(mac: Seq<char>)
    requires
        has_tail(mac),
    ensures
        ({
            let b = encode_utf8(mac);
            valid_utf8(b.subrange(b.len() - 4, b.len() as int))
        }),
{
    let b = encode_utf8(mac);
    encode_utf8_valid_utf8(mac);
    valid_utf8_split(b, b.len() - 4);
}

/// What is remembered of a sensor is what it is, each reading in its own place.
pub proof fn law_record_holds_the_readings(mac: Seq<char>, s: SensorView)
    ensures
        record(mac, s).mac == mac,
        record(mac, s).sensor_type == s.sensor_type.name(),
        record(mac, s).last_seen == s.last_seen,
        record(mac, s).battery == s.battery_pct,
        record(mac, s).battery_raw == s.battery_raw,
        record(mac, s).signal == s.rssi_dbm,
        record(mac, s).die_temperature_c == s.die_temperature_c,
        record(mac, s).event_sequence == s.event_sequence,
        record(mac, s).state == s.state,
        record(mac, s).dongle_mac == s.dongle_mac,
{
}

/// Every sensor is remembered, and nothing else is.
pub proof fn law_all_sensors_are_remembered(m: Sensors, k: Seq<char>)
    ensures
        records(m).contains_key(k) <==> m.contains_key(k),
        m.contains_key(k) ==> records(m)[k].state == m[k].state && records(m)[k].last_seen
            == m[k].last_seen && records(m)[k].mac == k,
{
}

/// The sensor that settings and memory describe: it has the user's name, timeout and version
/// where there are any, else a plain name and what its type has; the type that is remembered
/// goes before the one that the user says; and what is remembered of its readings goes before
/// what a new sensor has.
pub proof fn law_description_of_a_sensor(
    config: Settings,
    memory: Memory,
    mac: Seq<char>,
    now: u64,
)
    requires
        described(config, memory, mac, now) is Some,
    ensures
        ({
            let s = described(config, memory, mac, now)->0;
            &&& s.mac == mac
            &&& s.is_online
            &&& config.contains_key(mac) ==> s.friendly_name == config[mac].name
            &&& !config.contains_key(mac) ==> s.friendly_name == "Wyze Sense "@ + mac
            &&& config.contains_key(mac) && config[mac].timeout_sec is Some ==> s.timeout_sec
                == config[mac].timeout_sec->0
            &&& !config.contains_key(mac) || config[mac].timeout_sec is None ==> s.timeout_sec
                == crate::protocol::sensor::default_timeout(s.sensor_type)
            &&& config.contains_key(mac) && config[mac].sw_version is Some ==> s.sw_version
                == config[mac].sw_version->0
            &&& !config.contains_key(mac) || config[mac].sw_version is None ==> s.sw_version
                == "unknown"@
            &&& memory.contains_key(mac) ==> {
                &&& SensorType::of_name(memory[mac].sensor_type) == Some(s.sensor_type)
                &&& s.state == memory[mac].state
                &&& s.last_seen == memory[mac].last_seen
                &&& s.rssi_dbm == memory[mac].signal
                &&& s.battery_raw == memory[mac].battery_raw
                &&& memory[mac].battery is Some ==> s.battery_pct == memory[mac].battery
                &&& s.die_temperature_c == memory[mac].die_temperature_c
                &&& s.event_sequence == memory[mac].event_sequence
                &&& s.dongle_mac == memory[mac].dongle_mac
            }
            &&& !memory.contains_key(mac) ==> {
                &&& s.last_seen == now
                &&& s.dongle_mac is None
                &&& config.contains_key(mac) && config[mac].kind is Some ==> SensorType::of_name(
                    config[mac].kind->0,
                ) == Some(s.sensor_type)
                &&& !config.contains_key(mac) || config[mac].kind is None ==> s.sensor_type
                    == SensorType::Unknown(0)
            }
        }),
{
    crate::protocol::telemetry::law_sensor_names(SensorType::Unknown(0));
}

/// A sensor whose type is no type is not loaded, and without one it is loaded as unknown.
pub proof fn law_type_decides_on_loading(
    config: Settings,
    memory: Memory,
    mac: Seq<char>,
    now: u64,
)
    ensures
        memory.contains_key(mac) ==> (described(config, memory, mac, now) is Some
            <==> SensorType::of_name(memory[mac].sensor_type) is Some),
        !memory.contains_key(mac) && config.contains_key(mac) && config[mac].kind is Some ==> (
        described(config, memory, mac, now) is Some <==> SensorType::of_name(config[mac].kind->0)
            is Some),
        !memory.contains_key(mac) && (!config.contains_key(mac) || config[mac].kind is None)
            ==> described(config, memory, mac, now) is Some,
{
    crate::protocol::telemetry::law_sensor_names(SensorType::Unknown(0));
}

/// Loading what a dongle lists loads every sensor on the list as settings and memory describe
/// it, however often it stands there, and leaves the others as they were. Where the user has
/// said nothing of a sensor, the settings get an entry with a plain name and the timeout of
/// the sensor.
pub proof fn law_listed_sensors_are_loaded(
    l: Loaded,
    memory: Memory,
    macs: Seq<Seq<char>>,
    now: u64,
    k: Seq<char>,
)
    ensures
        ({
            let after = load_each(l, memory, macs, now);
            let d = described(l.config, memory, k, now);
            &&& macs.contains(k) && d is Some ==> {
                &&& after.sensors.contains_key(k)
                &&& after.sensors[k] == d->0
                &&& after.config.contains_key(k)
                &&& !l.config.contains_key(k) ==> {
                    &&& after.config[k].name == "Wyze Sense "@ + k
                    &&& after.config[k].kind is None
                    &&& after.config[k].timeout_sec == Some(d->0.timeout_sec)
                    &&& after.config[k].sw_version is None
                }
            }
            &&& !macs.contains(k) || d is None ==> {
                &&& after.sensors.contains_key(k) == l.sensors.contains_key(k)
                &&& l.sensors.contains_key(k) ==> after.sensors[k] == l.sensors[k]
                &&& after.config.contains_key(k) == l.config.contains_key(k)
            }
            &&& l.config.contains_key(k) ==> after.config.contains_key(k) && after.config[k]
                == l.config[k]
        }),
    decreases macs.len(),
{
    if macs.len() > 0 {
        let d = macs.drop_last();
        law_listed_sensors_are_loaded(l, memory, d, now, k);
        lemma_contains_last(macs, k);
        let before = load_each(l, memory, d, now);
        if macs.last() == k {
            assert(described(before.config, memory, k, now) == described(
                l.config,
                memory,
                k,
                now,
            )) by {
                if before.config.contains_key(k) && !l.config.contains_key(k) {
                    assert(d.contains(k) && described(l.config, memory, k, now) is Some);
                }
            }
        }
    }
}

proof fn lemma_contains_last(s: Seq<Seq<char>>, k: Seq<char>)
    requires
        s.len() > 0,
    ensures
        s.contains(k) <==> s.drop_last().contains(k) || k == s.last(),
{
    let d = s.drop_last();
    if d.contains(k) {
        assert(s[d.index_of(k)] == k);
    }
    if s.contains(k) && k != s.last() {
        assert(d[s.index_of(k)] == k);
    }
    assert(s[s.len() - 1] == s.last());
}

/// Loading what is remembered brings back every sensor that is described, and no other, and
/// counts them.
pub proof fn law_remembered_sensors_are_loaded(
    sensors: Sensors,
    config: Settings,
    memory: Memory,
    macs: Seq<Seq<char>>,
    now: u64,
    k: Seq<char>,
)
    ensures
        ({
            let (m, n) = load_remembered(sensors, config, memory, macs, now);
            let d = described(config, memory, k, now);
            &&& n <= macs.len()
            &&& macs.contains(k) && d is Some ==> m.contains_key(k) && m[k] == d->0 && n > 0
            &&& !macs.contains(k) || d is None ==> m.contains_key(k) == sensors.contains_key(k) && (
            sensors.contains_key(k) ==> m[k] == sensors[k])
            &&& (forall|i: int|
                0 <= i < macs.len() ==> described(config, memory, #[trigger] macs[i], now) is Some)
                ==> n == macs.len()
            &&& (forall|i: int|
                0 <= i < macs.len() ==> described(config, memory, #[trigger] macs[i], now) is None)
                ==> n == 0
        }),
    decreases macs.len(),
{
    if macs.len() > 0 {
        let d = macs.drop_last();
        law_remembered_sensors_are_loaded(sensors, config, memory, d, now, k);
        lemma_contains_last(macs, k);
        assert(macs.last() == macs[macs.len() - 1]);
        assert(forall|i: int| 0 <= i < d.len() ==> #[trigger] d[i] == macs[i]);
        if forall|i: int|
            0 <= i < macs.len() ==> described(config, memory, #[trigger] macs[i], now) is Some {
            assert forall|i: int| 0 <= i < d.len() implies described(
                config,
                memory,
                #[trigger] d[i],
                now,
            ) is Some by {
                assert(d[i] == macs[i]);
            }
        }
        if forall|i: int|
            0 <= i < macs.len() ==> described(config, memory, #[trigger] macs[i], now) is None {
            assert forall|i: int| 0 <= i < d.len() implies described(
                config,
                memory,
                #[trigger] d[i],
                now,
            ) is None by {
                assert(d[i] == macs[i]);
            }
        }
    }
}

/// A sensor that is registered: it has the type that it was registered under, is new in all
/// its readings, keeps its dongle, and has the user's name and timeout, or a name after its
/// type and the timeout of its type. The settings hold the same.
pub proof fn law_registered_sensor(
    l: Loaded,
    mac: Seq<char>,
    t: SensorType,
    version: Option<u8>,
    now: u64,
)
    ensures
        ({
            let r = register(l, mac, t, version, now);
            let s = r.sensors[mac];
            let c = r.config[mac];
            let named = l.config.contains_key(mac) && !is_made_up(l.config[mac].name);
            let timed = l.config.contains_key(mac) && l.config[mac].timeout_sec is Some;
            &&& r.sensors.contains_key(mac)
            &&& r.config.contains_key(mac)
            &&& s.mac == mac
            &&& s.sensor_type == t
            &&& s.is_online
            &&& s.last_seen == now
            &&& s.battery_raw is None
            &&& s.state == SensorView::fresh(mac, t, s.friendly_name, now).state
            &&& named ==> s.friendly_name == l.config[mac].name
            &&& !named ==> s.friendly_name == typed_name(mac, t)
            &&& timed ==> s.timeout_sec == l.config[mac].timeout_sec->0
            &&& !timed ==> s.timeout_sec == crate::protocol::sensor::default_timeout(t)
            &&& version is Some ==> text::decimal_value(s.sw_version) == Some(version->0 as nat)
            &&& version is None ==> s.sw_version == "unknown"@
            &&& l.sensors.contains_key(mac) ==> s.dongle_mac == l.sensors[mac].dongle_mac
            &&& !l.sensors.contains_key(mac) ==> s.dongle_mac is None
            &&& c.name == s.friendly_name
            &&& c.kind is None
            &&& c.timeout_sec == Some(s.timeout_sec)
            &&& version is Some ==> c.sw_version == Some(s.sw_version)
            &&& version is None ==> c.sw_version is None
        }),
{
    if version is Some {
        text::law_decimal_reads_back(version->0 as nat);
    }
}

/// A sensor that is known, with its type, takes an event as the event says, and its settings
/// stay. What was not a pairing leaves its dongle.
pub proof fn law_known_sensor_takes_the_event(l: Loaded, e: EventView, now: u64)
    requires
        l.sensors.contains_key(e.mac),
        !(l.sensors[e.mac].sensor_type is Unknown) || e.sensor_type is Unknown,
    ensures
        dispatched(l, e, now).config == l.config,
        !(e.data is Paired) ==> dispatched(l, e, now).sensors[e.mac] == l.sensors[e.mac].after_event(
            e,
        ),
        takes(l, e, now) <==> l.sensors[e.mac].accepts(e),
{
}

/// A new sensor takes the event that made it known, on top of what a new sensor of its type
/// is; the version of its firmware is the one that a pairing told.
pub proof fn law_new_sensor_takes_the_event(l: Loaded, e: EventView, now: u64)
    requires
        !l.sensors.contains_key(e.mac),
        !(e.data is Scanned || e.data is Offline),
    ensures
        ({
            let s = dispatched(l, e, now).sensors[e.mac];
            let version: Option<u8> = match e.data {
                TelemetryView::Paired { version } => Some(version),
                _ => None,
            };
            let r = register(l, e.mac, e.sensor_type, version, now).sensors[e.mac];
            &&& s.state == r.after_event(e).state
            &&& s.rssi_dbm == r.after_event(e).rssi_dbm
            &&& s.friendly_name == r.friendly_name
            &&& s.sw_version == r.sw_version
            &&& s.is_online
            &&& dispatched(l, e, now).config == register(
                l,
                e.mac,
                e.sensor_type,
                version,
                now,
            ).config
        }),
{
}

/// A new sensor that could not be saved is not told what the event said of it, and an event
/// that is ignored tells nobody; any other event is told to its sensor.
pub proof fn law_unsaved_sensor_is_given_up(m: Sensors, e: EventView, saved: bool)
    ensures
        finished(m, e, Route::Registered, false) == m,
        !finishes(m, e, Route::Registered, false),
        finished(m, e, Route::Ignored, saved) == m,
        !finishes(m, e, Route::Ignored, saved),
        finished(m, e, Route::Known, saved) == applied(m, e),
        finished(m, e, Route::Upgraded, saved) == applied(m, e),
        finished(m, e, Route::Registered, true) == applied(m, e),
        m.contains_key(e.mac) && !(e.data is Paired) ==> applied(m, e)[e.mac]
            == m[e.mac].after_event(e),
{
}

/// A sensor that only a dongle knows becomes known as one of unknown type, under a plain
/// name.
pub proof fn law_listed_stranger_becomes_known(
    m: Sensors,
    dongle: Seq<char>,
    macs: Seq<Seq<char>>,
    now: u64,
    k: Seq<char>,
)
    requires
        macs.contains(k),
        !m.contains_key(k),
    ensures
        ({
            let s = assign_each(m, dongle, macs, now)[k];
            &&& s.mac == k
            &&& s.sensor_type == SensorType::Unknown(0)
            &&& s.friendly_name == "Wyze Sense "@ + k
            &&& s.last_seen == now
            &&& s.is_online
            &&& s.dongle_mac == Some(dongle)
            &&& s.timeout_sec == 1800
        }),
    decreases macs.len(),
{
    let d = macs.drop_last();
    lemma_contains_last(macs, k);
    if d.contains(k) {
        law_listed_stranger_becomes_known(m, dongle, d, now, k);
        law_listed_sensors_belong_to_dongle(m, dongle, d, now, k);
    } else {
        law_listed_sensors_belong_to_dongle(m, dongle, d, now, k);
    }
}

/// A name counts as made up exactly where it starts in one of the ways in which the bridge
/// starts the names that it makes up for sensors of unknown type: what follows does not
/// matter. Any other name is the user's own, and one that is shorter than these starts is.
pub proof fn law_names_that_give_way(rest: Seq<char>, name: Seq<char>)
    ensures
        is_made_up("Wyze Sense"@ + rest),
        is_made_up("Wyze Sensor"@ + rest),
        is_made_up("Wyze UNKNOWN"@ + rest),
        is_made_up(name) ==> name.len() >= 10 && name[0] == 'W' && (name[5] == 'S' && name[6]
            == 'e' && name[7] == 'n' && name[8] == 's' || name[5] == 'U' && name[6] == 'N'),
{
    reveal_strlit("Wyze Sense");
    reveal_strlit("Wyze Sensor");
    reveal_strlit("Wyze UNKNOWN");
    let a = "Wyze Sense"@;
    let b = "Wyze Sensor"@;
    let c = "Wyze UNKNOWN"@;
    assert((a + rest).subrange(0, a.len() as int) =~= a);
    assert((b + rest).subrange(0, b.len() as int) =~= b);
    assert((c + rest).subrange(0, c.len() as int) =~= c);
    if text::has_prefix(name, a) {
        assert forall|i: int| 0 <= i < a.len() implies #[trigger] name[i] == a[i] by {
            assert(name.subrange(0, a.len() as int)[i] == name[i]);
        }
    }
    if text::has_prefix(name, b) {
        assert forall|i: int| 0 <= i < b.len() implies #[trigger] name[i] == b[i] by {
            assert(name.subrange(0, b.len() as int)[i] == name[i]);
        }
    }
    if text::has_prefix(name, c) {
        assert forall|i: int| 0 <= i < c.len() implies #[trigger] name[i] == c[i] by {
            assert(name.subrange(0, c.len() as int)[i] == name[i]);
        }
    }
}

} // verus!
