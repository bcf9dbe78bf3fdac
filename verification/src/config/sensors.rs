//! What the user says of each sensor.
use crate::registry::Registry;
use crate::text;
use vstd::prelude::*;

verus! {

/// What the user says of a sensor.
#[derive(Debug, Clone, PartialEq, Eq)]
pub struct SensorMetadata {
    pub name: String,
    /// The sensor type by name; a hint for sensors that were never heard of.
    pub kind: Option<String>,
    pub timeout_sec: Option<u64>,
    pub sw_version: Option<String>,
}

/// The model of what the user says of a sensor.
pub struct MetadataView {
    pub name: Seq<char>,
    pub kind: Option<Seq<char>>,
    pub timeout_sec: Option<u64>,
    pub sw_version: Option<Seq<char>>,
}

impl View for SensorMetadata {
    type V = MetadataView;

    open spec fn view(&self) -> MetadataView {
        MetadataView {
            name: self.name@,
            kind: text::option_view(self.kind),
            timeout_sec: self.timeout_sec,
            sw_version: text::option_view(self.sw_version),
        }
    }
}

/// What the user says of the sensors, by MAC address.
#[derive(Debug, Clone, PartialEq, Eq)]
pub struct SensorsConfig {
    pub sensors: Registry<SensorMetadata>,
}

impl SensorsConfig {
    /// Nothing is said of any sensor.
    pub fn new() -> (r: Self)
        ensures
            r.sensors.wf(),
            r.sensors@ == Map::<Seq<char>, MetadataView>::empty(),
    {
        SensorsConfig { sensors: Registry::new() }
    }
}

impl Default for SensorsConfig {
    fn default() -> (r: Self)
        ensures
            r.sensors.wf(),
            r.sensors@ == Map::<Seq<char>, MetadataView>::empty(),
    {
        SensorsConfig::new()
    }
}

/// What the user says of a sensor is what its model shows, field by field.
pub proof fn law_model_of_settings(m: SensorMetadata)
    ensures
        m@.name == m.name@,
        m@.kind == text::option_view(m.kind),
        m@.timeout_sec == m.timeout_sec,
        m@.sw_version == text::option_view(m.sw_version),
{
}

} // verus!
