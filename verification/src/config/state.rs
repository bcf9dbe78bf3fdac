//! What is remembered of each sensor from one run to the next.
use crate::protocol::sensor::SensorState;
use crate::registry::Registry;
use crate::text;
use vstd::prelude::*;

verus! {

/// What is remembered of a sensor.
#[derive(Debug, Clone, PartialEq, Eq)]
pub struct PersistedSensorState {
    pub mac: String,
    /// The sensor type by name.
    pub sensor_type: String,
    /// Seconds since the Unix epoch.
    pub last_seen: u64,
    /// Percent; nothing for a device without a battery.
    pub battery: Option<u8>,
    /// Raw battery byte, in steps of 1/32 V.
    pub battery_raw: Option<u8>,
    /// Signal strength in dBm.
    pub signal: i8,
    pub die_temperature_c: Option<i8>,
    pub event_sequence: Option<u16>,
    pub state: SensorState,
    /// The dongle that the sensor is paired with.
    pub dongle_mac: Option<String>,
}

/// The model of what is remembered of a sensor.
pub struct PersistedView {
    pub mac: Seq<char>,
    pub sensor_type: Seq<char>,
    pub last_seen: u64,
    pub battery: Option<u8>,
    pub battery_raw: Option<u8>,
    pub signal: i8,
    pub die_temperature_c: Option<i8>,
    pub event_sequence: Option<u16>,
    pub state: SensorState,
    pub dongle_mac: Option<Seq<char>>,
}

impl View for PersistedSensorState {
    type V = PersistedView;

    open spec fn view(&self) -> PersistedView {
        PersistedView {
            mac: self.mac@,
            sensor_type: self.sensor_type@,
            last_seen: self.last_seen,
            battery: self.battery,
            battery_raw: self.battery_raw,
            signal: self.signal,
            die_temperature_c: self.die_temperature_c,
            event_sequence: self.event_sequence,
            state: self.state,
            dongle_mac: text::option_view(self.dongle_mac),
        }
    }
}

/// The battery level of a sensor whose record does not say one.
pub fn default_battery() -> (r: Option<u8>)
    ensures
        r == Some(100u8),
{
    Some(100)
}

/// What is remembered of all sensors, by MAC address.
#[derive(Debug, Clone, PartialEq, Eq)]
pub struct SystemState {
    pub sensors: Registry<PersistedSensorState>,
}

impl Default for SystemState {
    fn default() -> (r: Self)
        ensures
            r.sensors.wf(),
            r.sensors@ == Map::<Seq<char>, PersistedView>::empty(),
            r.sensors.keys() == Seq::<Seq<char>>::empty(),
    {
        SystemState { sensors: Registry::new() }
    }
}

/// What stands in a record is what its model shows, field by field.
pub proof fn law_model_of_a_record(p: PersistedSensorState)
    ensures
        p@.mac == p.mac@,
        p@.sensor_type == p.sensor_type@,
        p@.last_seen == p.last_seen,
        p@.battery == p.battery,
        p@.battery_raw == p.battery_raw,
        p@.signal == p.signal,
        p@.die_temperature_c == p.die_temperature_c,
        p@.event_sequence == p.event_sequence,
        p@.state == p.state,
        p@.dongle_mac == text::option_view(p.dongle_mac),
{
}

} // verus!
