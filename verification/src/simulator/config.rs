//! The configuration of a simulated dongle.
use crate::config::app_config::LogLevel;
use crate::text;
use vstd::prelude::*;
use vstd::string::*;

verus! {

// ---------------------------------------------------------------------------
// Types
// ---------------------------------------------------------------------------

/// Who the dongle is.
#[derive(Debug, Clone, PartialEq, Eq)]
pub struct DongleConfig {
    pub mac: String,
    pub version: String,
}

/// How the dongle reaches the bridge.
#[derive(Debug, Clone, PartialEq, Eq)]
pub struct GatewayConfig {
    pub url: String,
    pub auth_token: Option<String>,
    pub auto_reconnect: bool,
    pub reconnect_delay_secs: u64,
}

/// What is logged.
#[derive(Debug, Clone, PartialEq, Eq)]
pub struct LoggingConfig {
    pub level: String,
}

/// A temperature as it goes over the wire: whole degrees Celsius and hundredths.
#[derive(Debug, Copy, Clone, PartialEq, Eq, Structural)]
pub struct Degrees {
    pub whole: i8,
    pub hundredths: u8,
}

/// A sensor that is bound to the dongle.
#[derive(Debug, Clone, PartialEq, Eq)]
pub struct SensorConfig {
    pub mac: String,
    /// The type by name.
    pub sensor_type: String,
    pub battery: u8,
    /// Signal strength without its sign.
    pub rssi: u8,
    /// Of a contact or motion sensor: open or closed, active or inactive.
    pub state: Option<String>,
    pub temperature: Option<Degrees>,
    pub humidity: Option<u8>,
    /// Of a leak sensor: dry or wet.
    pub leak_state: Option<String>,
    /// How often the sensor reports by itself, in seconds.
    pub auto_event_interval_secs: Option<u64>,
}

/// The model of a sensor.
pub struct SimulatedView {
    pub mac: Seq<char>,
    pub sensor_type: Seq<char>,
    pub battery: u8,
    pub rssi: u8,
    pub state: Option<Seq<char>>,
    pub temperature: Option<Degrees>,
    pub humidity: Option<u8>,
    pub leak_state: Option<Seq<char>>,
    pub auto_event_interval_secs: Option<u64>,
}

impl View for SensorConfig {
    type V = SimulatedView;

    open spec fn view(&self) -> SimulatedView {
        SimulatedView {
            mac: self.mac@,
            sensor_type: self.sensor_type@,
            battery: self.battery,
            rssi: self.rssi,
            state: text::option_view(self.state),
            temperature: self.temperature,
            humidity: self.humidity,
            leak_state: text::option_view(self.leak_state),
            auto_event_interval_secs: self.auto_event_interval_secs,
        }
    }
}

/// The configuration of a simulated dongle.
#[derive(Debug, Clone, PartialEq, Eq)]
pub struct VirtualDongleConfig {
    pub dongle: DongleConfig,
    pub gateway: GatewayConfig,
    pub logging: LoggingConfig,
    pub sensors: Vec<SensorConfig>,
}

// ---------------------------------------------------------------------------
// Defaults
// ---------------------------------------------------------------------------

pub fn default_dongle_mac() -> (r: String)
    ensures
        r@ == "VIRTUAL1"@,
{
    "VIRTUAL1".to_owned()
}

pub fn default_dongle_version() -> (r: String)
    ensures
        r@ == "V2.3.9"@,
{
    "V2.3.9".to_owned()
}

pub fn default_gateway_url() -> (r: String)
    ensures
        r@ == "ws://127.0.0.1:8080/ws/bridge"@,
{
    "ws://127.0.0.1:8080/ws/bridge".to_owned()
}

pub fn default_reconnect_delay() -> (r: u64)
    ensures
        r == 5,
{
    5
}

pub fn default_log_level() -> (r: String)
    ensures
        r@ == "info"@,
{
    "info".to_owned()
}

pub fn default_sensor_type() -> (r: String)
    ensures
        r@ == "contact"@,
{
    "contact".to_owned()
}

pub fn default_battery() -> (r: u8)
    ensures
        r == 90,
{
    90
}

pub fn default_rssi() -> (r: u8)
    ensures
        r == 60,
{
    60
}

impl Default for DongleConfig {
    fn default() -> (r: Self)
        ensures
            r.mac@ == "VIRTUAL1"@,
            r.version@ == "V2.3.9"@,
    {
        DongleConfig { mac: default_dongle_mac(), version: default_dongle_version() }
    }
}

impl Default for GatewayConfig {
    fn default() -> (r: Self)
        ensures
            r.url@ == "ws://127.0.0.1:8080/ws/bridge"@,
            r.auth_token is None,
            r.auto_reconnect,
            r.reconnect_delay_secs == 5,
    {
        GatewayConfig {
            url: default_gateway_url(),
            auth_token: None,
            auto_reconnect: true,
            reconnect_delay_secs: default_reconnect_delay(),
        }
    }
}

impl Default for LoggingConfig {
    fn default() -> (r: Self)
        ensures
            r.level@ == "info"@,
    {
        LoggingConfig { level: default_log_level() }
    }
}

impl Default for VirtualDongleConfig {
    fn default() -> (r: Self)
        ensures
            r.dongle.mac@ == "VIRTUAL1"@,
            r.dongle.version@ == "V2.3.9"@,
            r.gateway.url@ == "ws://127.0.0.1:8080/ws/bridge"@,
            r.gateway.auth_token is None,
            r.gateway.auto_reconnect,
            r.gateway.reconnect_delay_secs == 5,
            r.logging.level@ == "info"@,
            r.sensors@.len() == 0,
    {
        VirtualDongleConfig {
            dongle: DongleConfig::default(),
            gateway: GatewayConfig::default(),
            logging: LoggingConfig::default(),
            sensors: Vec::new(),
        }
    }
}

// ---------------------------------------------------------------------------
// What settings mean
// ---------------------------------------------------------------------------

impl SimulatedView {
    /// The state of a contact or motion sensor on the wire.
    pub open spec fn state_code(self) -> u8 {
        if self.state == Some("open"@) || self.state == Some("active"@) || self.state == Some(
            "1"@,
        ) {
            1
        } else {
            0
        }
    }

    /// The state of a leak sensor on the wire.
    pub open spec fn leak_code(self) -> u8 {
        if self.leak_state == Some("wet"@) || self.leak_state == Some("1"@) {
            1
        } else {
            0
        }
    }
}

impl SensorConfig {
    /// The state of a contact or motion sensor on the wire.
    pub fn state_byte(&self) -> (r: u8)
        ensures
            r == self@.state_code(),
    {
        match &self.state {
            Some(s) => if text::same(s.as_str(), "open") || text::same(s.as_str(), "active")
                || text::same(s.as_str(), "1") {
                1
            } else {
                0
            },
            None => 0,
        }
    }

    /// The state of a leak sensor on the wire.
    pub fn leak_byte(&self) -> (r: u8)
        ensures
            r == self@.leak_code(),
    {
        match &self.leak_state {
            Some(s) => if text::same(s.as_str(), "wet") || text::same(s.as_str(), "1") {
                1
            } else {
                0
            },
            None => 0,
        }
    }
}

/// The level that a word in lower case names; any other word means the middle one.
pub open spec fn level_of(word: Seq<char>) -> LogLevel {
    if word == "trace"@ {
        LogLevel::Trace
    } else if word == "debug"@ {
        LogLevel::Debug
    } else if word == "warn"@ || word == "warning"@ {
        LogLevel::Warn
    } else if word == "error"@ {
        LogLevel::Error
    } else {
        LogLevel::Info
    }
}

/// The level that a word in lower case names.
pub fn read_level(word: &str) -> (r: LogLevel)
    ensures
        r == level_of(word@),
{
    if text::same(word, "trace") {
        LogLevel::Trace
    } else if text::same(word, "debug") {
        LogLevel::Debug
    } else if text::same(word, "warn") || text::same(word, "warning") {
        LogLevel::Warn
    } else if text::same(word, "error") {
        LogLevel::Error
    } else {
        LogLevel::Info
    }
}

impl LoggingConfig {
    /// How much is logged.
    pub fn log_level(&self) -> (r: LogLevel)
        ensures
            r == level_of(text::lowercase(self.level@)),
    {
        read_level(text::to_lowercase(self.level.as_str()).as_str())
    }
}

/// The address at which a simulated dongle connects.
pub open spec fn session_address(url: Seq<char>, token: Option<Seq<char>>) -> Seq<char> {
    match token {
        Some(t) => url + "?device=virtual-dongle&token="@ + t,
        None => url + "?device=virtual-dongle"@,
    }
}

impl GatewayConfig {
    /// The address at which the dongle connects: it names itself, and shows its token where
    /// it has one.
    pub fn session_url(&self) -> (r: String)
        ensures
            r@ == self.url@ + "?device=virtual-dongle"@ + match self.auth_token {
                Some(t) => "&token="@ + t@,
                None => Seq::empty(),
            },
            r@ == session_address(self.url@, text::option_view(self.auth_token)),
    {
        let mut url = self.url.clone();
        url.append("?device=virtual-dongle");
        match &self.auth_token {
            Some(t) => {
                url.append("&token=");
                url.append(t.as_str());
            },
            None => {},
        }
        proof {
            assert(url@ =~= self.url@ + "?device=virtual-dongle"@ + match self.auth_token {
                Some(t) => "&token="@ + t@,
                None => Seq::empty(),
            });
            reveal_strlit("?device=virtual-dongle");
            reveal_strlit("&token=");
            reveal_strlit("?device=virtual-dongle&token=");
            assert(url@ =~= session_address(self.url@, text::option_view(self.auth_token)));
        }
        url
    }
}

/// The address at which a relay connects that has a dongle at a device path.
pub fn relay_url(gateway: &str, device_path: &str) -> (r: String)
    ensures
        r@ == gateway@ + "?device="@ + text::replaced(device_path@, '/', "%2F"@),
{
    let mut url = gateway.to_owned();
    url.append("?device=");
    url.append(text::replace(device_path, '/', "%2F").as_str());
    url
}

/// Which words make a simulated sensor open or active, and which make it wet; any other word,
/// and none at all, makes it closed, inactive or dry.
pub proof fn law_simulated_states(s: SimulatedView)
    ensures
        s.state_code() == 1 <==> s.state is Some && (s.state->0 == "open"@ || s.state->0
            == "active"@ || s.state->0 == "1"@),
        s.state_code() == 0 || s.state_code() == 1,
        s.leak_code() == 1 <==> s.leak_state is Some && (s.leak_state->0 == "wet"@ || s.leak_state->0
            == "1"@),
        s.leak_code() == 0 || s.leak_code() == 1,
{
}

/// A word names the level that is called like it, `warning` the same as `warn`; any other
/// word means `info`.
pub proof fn law_simulator_levels(word: Seq<char>)
    ensures
        level_of(word) is Trace <==> word == "trace"@,
        level_of(word) is Debug <==> word == "debug"@,
        level_of(word) is Warn <==> word == "warn"@ || word == "warning"@,
        level_of(word) is Error <==> word == "error"@,
{
    reveal_strlit("trace");
    reveal_strlit("debug");
    reveal_strlit("warn");
    reveal_strlit("warning");
    reveal_strlit("error");
    assert("trace"@.len() == 5 && "trace"@[0] == 't');
    assert("debug"@.len() == 5 && "debug"@[0] == 'd');
    assert("error"@.len() == 5 && "error"@[0] == 'e');
    assert("warn"@.len() == 4 && "warning"@.len() == 7);
}

/// What stands in the configuration of a sensor is what its model shows, field by field.
pub proof fn law_model_of_a_simulated_sensor(s: SensorConfig)
    ensures
        s@.mac == s.mac@,
        s@.sensor_type == s.sensor_type@,
        s@.battery == s.battery,
        s@.rssi == s.rssi,
        s@.state == text::option_view(s.state),
        s@.temperature == s.temperature,
        s@.humidity == s.humidity,
        s@.leak_state == text::option_view(s.leak_state),
        s@.auto_event_interval_secs == s.auto_event_interval_secs,
{
}

/// The address at which a dongle connects starts with that of the bridge, and ends with the
/// token exactly where there is one.
pub proof fn law_session_address(url: Seq<char>, token: Seq<char>)
    ensures
        text::has_prefix(session_address(url, None), url),
        text::has_prefix(session_address(url, Some(token)), url),
        text::has_suffix(session_address(url, Some(token)), "&token="@ + token),
        text::has_suffix(session_address(url, None), "?device=virtual-dongle"@),
{
    reveal_strlit("?device=virtual-dongle&token=");
    reveal_strlit("&token=");
    let a = session_address(url, None);
    let b = session_address(url, Some(token));
    let tail = "&token="@ + token;
    assert(a.subrange(0, url.len() as int) =~= url);
    assert(b.subrange(0, url.len() as int) =~= url);
    assert(b.subrange(b.len() - tail.len(), b.len() as int) =~= tail);
    let name = "?device=virtual-dongle"@;
    assert(a.subrange(a.len() - name.len(), a.len() as int) =~= name);
}

} // verus!
