//! The console of a simulated dongle: what is typed, and what it makes of the dongle.
use crate::protocol::events;
use crate::protocol::telemetry::{SensorType, TelemetryView};
use crate::simulator::config::{default_battery, default_rssi, Degrees, SensorConfig, SimulatedView};
use crate::simulator::dongle;
use crate::simulator::dongle::{DongleState, StateView};
use crate::text;
use vstd::prelude::*;
use vstd::string::*;
use vstd::utf8::*;

verus! {

// ---------------------------------------------------------------------------
// What is typed
// ---------------------------------------------------------------------------

/// A command that was typed with too few words.
#[derive(Debug, Copy, Clone, PartialEq, Eq, Structural)]
pub enum Usage {
    Alarm,
    Heartbeat,
    Climate,
    Leak,
}

/// What a line asks for.
#[derive(Debug, PartialEq, Eq)]
pub enum ConsoleCommand {
    Empty,
    /// During a search: a sensor was expected, and this is no address of one.
    BadMac,
    /// During a search: a sensor comes up.
    Announce { mac: String, kind: String, sensor_type: SensorType },
    StopScan,
    Alarm { mac: String, state: u8 },
    Heartbeat { mac: String },
    /// The temperature comes as it was typed.
    Climate { mac: String, temperature: String, humidity: u8 },
    Leak { mac: String, state: u8 },
    TooFewWords(Usage),
    Sensors,
    Help,
    Quit,
    Unknown(String),
}

/// The model of what a line asks for.
pub enum LineView {
    Empty,
    BadMac,
    Announce { mac: Seq<char>, kind: Seq<char>, sensor_type: SensorType },
    StopScan,
    Alarm { mac: Seq<char>, state: u8 },
    Heartbeat { mac: Seq<char> },
    Climate { mac: Seq<char>, temperature: Seq<char>, humidity: u8 },
    Leak { mac: Seq<char>, state: u8 },
    TooFewWords(Usage),
    Sensors,
    Help,
    Quit,
    Unknown(Seq<char>),
}

impl View for ConsoleCommand {
    type V = LineView;

    open spec fn view(&self) -> LineView {
        match self {
            ConsoleCommand::Empty => LineView::Empty,
            ConsoleCommand::BadMac => LineView::BadMac,
            ConsoleCommand::Announce { mac, kind, sensor_type } => LineView::Announce {
                mac: mac@,
                kind: kind@,
                sensor_type: *sensor_type,
            },
            ConsoleCommand::StopScan => LineView::StopScan,
            ConsoleCommand::Alarm { mac, state } => LineView::Alarm { mac: mac@, state: *state },
            ConsoleCommand::Heartbeat { mac } => LineView::Heartbeat { mac: mac@ },
            ConsoleCommand::Climate { mac, temperature, humidity } => LineView::Climate {
                mac: mac@,
                temperature: temperature@,
                humidity: *humidity,
            },
            ConsoleCommand::Leak { mac, state } => LineView::Leak { mac: mac@, state: *state },
            ConsoleCommand::TooFewWords(u) => LineView::TooFewWords(*u),
            ConsoleCommand::Sensors => LineView::Sensors,
            ConsoleCommand::Help => LineView::Help,
            ConsoleCommand::Quit => LineView::Quit,
            ConsoleCommand::Unknown(s) => LineView::Unknown(s@),
        }
    }
}

pub open spec fn is_ascii_alphanumeric(c: char) -> bool {
    '0' <= c <= '9' || 'A' <= c <= 'Z' || 'a' <= c <= 'z'
}

/// The address of a sensor: eight letters and digits.
pub open spec fn is_sensor_mac(mac: Seq<char>) -> bool {
    encode_utf8(mac).len() == 8 && forall|i: int|
        0 <= i < mac.len() ==> is_ascii_alphanumeric(#[trigger] mac[i])
}

fn names_sensor(mac: &str) -> (r: bool)
    ensures
        r == is_sensor_mac(mac@),
{
    if mac.as_bytes().len() != 8 {
        return false;
    }
    let c = text::chars_of(mac);
    let mut i: usize = 0;
    while i < c.len()
        invariant
            i <= c@.len(),
            c@ == mac@,
            forall|j: int| 0 <= j < i ==> is_ascii_alphanumeric(#[trigger] mac@[j]),
        decreases c@.len() - i,
    {
        let x = c[i];
        if !(('0' <= x && x <= '9') || ('A' <= x && x <= 'Z') || ('a' <= x && x <= 'z')) {
            proof {
                assert(!is_ascii_alphanumeric(mac@[i as int]));
            }
            return false;
        }
        i += 1;
    }
    true
}

/// Words that keep their meaning during a search.
pub open spec fn works_during_scan(cmd: Seq<char>) -> bool {
    cmd == "stopscan"@ || cmd == "help"@ || cmd == "quit"@ || cmd == "sensors"@ || cmd == "exit"@
}

/// A state that is on.
pub open spec fn alarm_state(word: Seq<char>) -> u8 {
    if word == "open"@ || word == "on"@ || word == "1"@ || word == "active"@ {
        1
    } else {
        0
    }
}

/// A state that is wet.
pub open spec fn leak_state(word: Seq<char>) -> u8 {
    if word == "wet"@ || word == "1"@ {
        1
    } else {
        0
    }
}

/// A humidity; what is none means fifty percent.
pub open spec fn humidity_of(word: Seq<char>) -> u8 {
    match text::decimal_value(word) {
        Some(n) => if n <= 255 {
            n as u8
        } else {
            50
        },
        None => 50,
    }
}

/// A sensor that comes up during a search, by what was typed: its address, and its type
/// where a second word names it.
pub open spec fn announced(lower: Seq<Seq<char>>, upper: Seq<Seq<char>>) -> LineView {
    if is_sensor_mac(upper[0]) {
        let kind = if lower.len() > 1 {
            lower[1]
        } else {
            "contact"@
        };
        LineView::Announce {
            mac: upper[0],
            kind,
            sensor_type: match SensorType::of_name(kind) {
                Some(t) => t,
                None => SensorType::ContactV2,
            },
        }
    } else {
        LineView::BadMac
    }
}

/// What words ask for, given also in lower and in upper case.
pub open spec fn meaning(
    words: Seq<Seq<char>>,
    lower: Seq<Seq<char>>,
    upper: Seq<Seq<char>>,
    scanning: bool,
) -> LineView {
    if words.len() == 0 {
        LineView::Empty
    } else if scanning && !works_during_scan(lower[0]) {
        announced(lower, upper)
    } else if lower[0] == "stopscan"@ {
        LineView::StopScan
    } else if lower[0] == "alarm"@ {
        if words.len() < 3 {
            LineView::TooFewWords(Usage::Alarm)
        } else {
            LineView::Alarm { mac: upper[1], state: alarm_state(lower[2]) }
        }
    } else if lower[0] == "heartbeat"@ || lower[0] == "hb"@ {
        if words.len() < 2 {
            LineView::TooFewWords(Usage::Heartbeat)
        } else {
            LineView::Heartbeat { mac: upper[1] }
        }
    } else if lower[0] == "climate"@ {
        if words.len() < 4 {
            LineView::TooFewWords(Usage::Climate)
        } else {
            LineView::Climate {
                mac: upper[1],
                temperature: words[2],
                humidity: humidity_of(words[3]),
            }
        }
    } else if lower[0] == "leak"@ {
        if words.len() < 3 {
            LineView::TooFewWords(Usage::Leak)
        } else {
            LineView::Leak { mac: upper[1], state: leak_state(lower[2]) }
        }
    } else if lower[0] == "sensors"@ || lower[0] == "list"@ {
        LineView::Sensors
    } else if lower[0] == "help"@ || lower[0] == "?"@ {
        LineView::Help
    } else if lower[0] == "quit"@ || lower[0] == "exit"@ {
        LineView::Quit
    } else {
        LineView::Unknown(lower[0])
    }
}

fn read_announced(lower: &[String], upper: &[String]) -> (r: ConsoleCommand)
    requires
        lower@.len() > 0,
        upper@.len() > 0,
    ensures
        r@ == announced(text::views(lower@), text::views(upper@)),
{
    let mac = upper[0].as_str();
    if !names_sensor(mac) {
        return ConsoleCommand::BadMac;
    }
    let kind: String = if lower.len() > 1 {
        lower[1].clone()
    } else {
        "contact".to_owned()
    };
    let sensor_type = match SensorType::from_name(kind.as_str()) {
        Ok(t) => t,
        Err(_) => SensorType::ContactV2,
    };
    ConsoleCommand::Announce { mac: mac.to_owned(), kind, sensor_type }
}

/// What words ask for, given also in lower and in upper case.
pub fn interpret(
    words: &[String],
    lower: &[String],
    upper: &[String],
    scanning: bool,
) -> (r: ConsoleCommand)
    requires
        lower@.len() == words@.len(),
        upper@.len() == words@.len(),
    ensures
        r@ == meaning(text::views(words@), text::views(lower@), text::views(upper@), scanning),
{
    if words.len() == 0 {
        return ConsoleCommand::Empty;
    }
    let cmd = lower[0].as_str();
    let keeps = text::same(cmd, "stopscan") || text::same(cmd, "help") || text::same(cmd, "quit")
        || text::same(cmd, "sensors") || text::same(cmd, "exit");
    if scanning && !keeps {
        return read_announced(lower, upper);
    }
    if text::same(cmd, "stopscan") {
        ConsoleCommand::StopScan
    } else if text::same(cmd, "alarm") {
        if words.len() < 3 {
            ConsoleCommand::TooFewWords(Usage::Alarm)
        } else {
            let w = lower[2].as_str();
            let state: u8 = if text::same(w, "open") || text::same(w, "on") || text::same(w, "1")
                || text::same(w, "active") {
                1
            } else {
                0
            };
            ConsoleCommand::Alarm { mac: upper[1].clone(), state }
        }
    } else if text::same(cmd, "heartbeat") || text::same(cmd, "hb") {
        if words.len() < 2 {
            ConsoleCommand::TooFewWords(Usage::Heartbeat)
        } else {
            ConsoleCommand::Heartbeat { mac: upper[1].clone() }
        }
    } else if text::same(cmd, "climate") {
        if words.len() < 4 {
            ConsoleCommand::TooFewWords(Usage::Climate)
        } else {
            let humidity: u8 = match text::parse_decimal(words[3].as_str(), 255) {
                Some(n) => n as u8,
                None => 50,
            };
            ConsoleCommand::Climate {
                mac: upper[1].clone(),
                temperature: words[2].clone(),
                humidity,
            }
        }
    } else if text::same(cmd, "leak") {
        if words.len() < 3 {
            ConsoleCommand::TooFewWords(Usage::Leak)
        } else {
            let w = lower[2].as_str();
            let state: u8 = if text::same(w, "wet") || text::same(w, "1") {
                1
            } else {
                0
            };
            ConsoleCommand::Leak { mac: upper[1].clone(), state }
        }
    } else if text::same(cmd, "sensors") || text::same(cmd, "list") {
        ConsoleCommand::Sensors
    } else if text::same(cmd, "help") || text::same(cmd, "?") {
        ConsoleCommand::Help
    } else if text::same(cmd, "quit") || text::same(cmd, "exit") {
        ConsoleCommand::Quit
    } else {
        ConsoleCommand::Unknown(cmd.to_owned())
    }
}

/// Texts in lower case.
pub open spec fn lowered(s: Seq<Seq<char>>) -> Seq<Seq<char>> {
    Seq::new(s.len(), |i: int| text::lowercase(s[i]))
}

/// Texts in upper case.
pub open spec fn raised(s: Seq<Seq<char>>) -> Seq<Seq<char>> {
    Seq::new(s.len(), |i: int| text::uppercase(s[i]))
}

/// What a line asks for.
pub fn read_line(line: &str, scanning: bool) -> (r: ConsoleCommand)
    ensures
        r@ == meaning(
            text::words(line@),
            lowered(text::words(line@)),
            raised(text::words(line@)),
            scanning,
        ),
{
    let words = text::split_whitespace(line);
    let ghost w = text::views(words@);
    let mut lower: Vec<String> = Vec::new();
    let mut upper: Vec<String> = Vec::new();
    let mut i: usize = 0;
    while i < words.len()
        invariant
            i <= words@.len(),
            w == text::views(words@),
            lower@.len() == i,
            upper@.len() == i,
            forall|j: int| 0 <= j < i ==> (#[trigger] lower@[j])@ == text::lowercase(w[j]),
            forall|j: int| 0 <= j < i ==> (#[trigger] upper@[j])@ == text::uppercase(w[j]),
        decreases words@.len() - i,
    {
        lower.push(text::to_lowercase(words[i].as_str()));
        upper.push(text::to_uppercase(words[i].as_str()));
        i += 1;
    }
    proof {
        assert(text::views(lower@) =~= lowered(w));
        assert(text::views(upper@) =~= raised(w));
    }
    interpret(words.as_slice(), lower.as_slice(), upper.as_slice(), scanning)
}

// ---------------------------------------------------------------------------
// What it makes of the dongle
// ---------------------------------------------------------------------------

/// A sensor that was announced on the console.
pub open spec fn new_sensor(mac: Seq<char>, kind: Seq<char>) -> SimulatedView {
    SimulatedView {
        mac,
        sensor_type: kind,
        battery: 90,
        rssi: 60,
        state: Some("closed"@),
        temperature: None,
        humidity: None,
        leak_state: None,
        auto_event_interval_secs: None,
    }
}

/// The battery and the signal of a sensor; those of a new one for a sensor that is not
/// bound.
pub open spec fn readings(s: StateView, mac: Seq<char>) -> (u8, u8) {
    match dongle::last_with(s.sensors, mac) {
        Some(x) => (x.battery, x.rssi),
        None => (90, 60),
    }
}

/// The dongle after a command: a sensor that comes up is bound, unless it was.
pub open spec fn state_after(s: StateView, c: LineView) -> StateView {
    match c {
        LineView::Announce { mac, kind, .. } => if dongle::last_with(s.sensors, mac) is None {
            StateView { sensors: s.sensors.push(new_sensor(mac, kind)), ..s }
        } else {
            s
        },
        _ => s,
    }
}

/// What is sent to the bridge on a command, if anything.
pub open spec fn sent(s: StateView, c: LineView, temperature: Degrees, now: u64) -> Option<
    Seq<u8>,
> {
    match c {
        LineView::Announce { mac, sensor_type, .. } => Some(
            events::async_packet(0x20, events::scan_payload(mac, sensor_type, 0x19)).wire(),
        ),
        LineView::Alarm { mac, state } => Some(
            dongle::alarm_event(now, mac, state, readings(s, mac).0, readings(s, mac).1),
        ),
        LineView::Heartbeat { mac } => Some(
            dongle::heartbeat_event(now, mac, readings(s, mac).0, readings(s, mac).1),
        ),
        LineView::Climate { mac, humidity, .. } => Some(
            dongle::climate_event(
                now,
                mac,
                temperature,
                humidity,
                readings(s, mac).0,
                readings(s, mac).1,
            ),
        ),
        LineView::Leak { mac, state } => Some(
            dongle::leak_event(mac, state, readings(s, mac).0, readings(s, mac).1),
        ),
        _ => None,
    }
}

/// The battery and the signal of a sensor.
pub fn sensor_readings(state: &DongleState, mac: &str) -> (r: (u8, u8))
    ensures
        r == readings(state@, mac@),
{
    match state.get_sensor(mac) {
        Some(s) => (s.battery, s.rssi),
        None => (default_battery(), default_rssi()),
    }
}

/// Carries out a command at a millisecond: changes the dongle, and gives what is sent to
/// the bridge. The temperature is what the command's text means.
pub fn run(state: &mut DongleState, c: &ConsoleCommand, temperature: Degrees, now: u64) -> (r:
    Option<Vec<u8>>)
    ensures
        final(state)@ == state_after(old(state)@, c@),
        match r {
            Some(b) => sent(old(state)@, c@, temperature, now) == Some(b@),
            None => sent(old(state)@, c@, temperature, now) is None,
        },
{
    match c {
        ConsoleCommand::Announce { mac, kind, sensor_type } => {
            let packet = events::scan_packet(mac.as_str(), *sensor_type, 0x19);
            if state.get_sensor(mac.as_str()).is_none() {
                let s = SensorConfig {
                    mac: mac.clone(),
                    sensor_type: kind.clone(),
                    battery: default_battery(),
                    rssi: default_rssi(),
                    state: Some("closed".to_owned()),
                    temperature: None,
                    humidity: None,
                    leak_state: None,
                    auto_event_interval_secs: None,
                };
                state.add_sensor(s);
            }
            Some(packet)
        },
        ConsoleCommand::Alarm { mac, state: s } => {
            let (battery, rssi) = sensor_readings(state, mac.as_str());
            Some(dongle::build_alarm_packet(now, mac.as_str(), *s, battery, rssi))
        },
        ConsoleCommand::Heartbeat { mac } => {
            let (battery, rssi) = sensor_readings(state, mac.as_str());
            Some(dongle::build_heartbeat_packet(now, mac.as_str(), battery, rssi))
        },
        ConsoleCommand::Climate { mac, humidity, .. } => {
            let (battery, rssi) = sensor_readings(state, mac.as_str());
            Some(
                dongle::build_climate_packet(
                    now,
                    mac.as_str(),
                    temperature,
                    *humidity,
                    battery,
                    rssi,
                ),
            )
        },
        ConsoleCommand::Leak { mac, state: s } => {
            let (battery, rssi) = sensor_readings(state, mac.as_str());
            Some(dongle::build_leak_packet(mac.as_str(), *s, battery, rssi))
        },
        _ => None,
    }
}

// ---------------------------------------------------------------------------
// Laws
// ---------------------------------------------------------------------------

/// A sensor that comes up on the console is bound from then on, and coming up again
/// changes nothing.
pub proof fn law_announced_sensor_is_bound(s: StateView, c: LineView)
    requires
        c is Announce,
    ensures
        dongle::last_with(state_after(s, c).sensors, c->Announce_mac) is Some,
        state_after(state_after(s, c), c) == state_after(s, c),
{
    let mac = c->Announce_mac;
    let x = new_sensor(mac, c->Announce_kind);
    dongle::law_bound_is_found(s.sensors, x);
}

/// No command but the coming up of a sensor changes the dongle.
pub proof fn law_reports_change_nothing(s: StateView, c: LineView)
    requires
        !(c is Announce),
    ensures
        state_after(s, c) == s,
{
}

/// Which words turn an alarm on, and which make a leak wet; any other word is off or dry.
pub proof fn law_states_that_are_typed(word: Seq<char>)
    ensures
        alarm_state(word) == 1 <==> word == "open"@ || word == "on"@ || word == "1"@ || word
            == "active"@,
        alarm_state(word) == 0 || alarm_state(word) == 1,
        leak_state(word) == 1 <==> word == "wet"@ || word == "1"@,
        leak_state(word) == 0 || leak_state(word) == 1,
{
}

/// A humidity that is typed as a number of one byte is that number; anything else is fifty.
pub proof fn law_humidity_that_is_typed(n: u8, word: Seq<char>)
    ensures
        humidity_of(text::decimal(n as nat)) == n,
        text::decimal_value(word) is None ==> humidity_of(word) == 50,
        text::decimal_value(word) matches Some(v) ==> v > 255 ==> humidity_of(word) == 50,
{
    text::law_decimal_reads_back(n as nat);
}

proof fn lemma_commands_differ()
    ensures
        "stopscan"@.len() == 8,
        "alarm"@.len() == 5,
        "heartbeat"@.len() == 9,
        "hb"@.len() == 2,
        "climate"@.len() == 7 && "climate"@[0] == 'c',
        "sensors"@.len() == 7 && "sensors"@[0] == 's',
        "leak"@.len() == 4 && "leak"@[0] == 'l' && "leak"@[1] == 'e',
        "list"@.len() == 4 && "list"@[0] == 'l' && "list"@[1] == 'i',
        "help"@.len() == 4 && "help"@[0] == 'h',
        "quit"@.len() == 4 && "quit"@[0] == 'q',
        "exit"@.len() == 4 && "exit"@[0] == 'e',
        "?"@.len() == 1,
{
    reveal_strlit("stopscan");
    reveal_strlit("alarm");
    reveal_strlit("heartbeat");
    reveal_strlit("hb");
    reveal_strlit("climate");
    reveal_strlit("sensors");
    reveal_strlit("leak");
    reveal_strlit("list");
    reveal_strlit("help");
    reveal_strlit("quit");
    reveal_strlit("exit");
    reveal_strlit("?");
}

/// What is typed outside a search: the first word says what to do, in any case; the second is
/// the address of a sensor, in capitals; what follows is what the command needs. A command
/// with too few words is told so.
pub proof fn law_commands_that_are_typed(
    words: Seq<Seq<char>>,
    lower: Seq<Seq<char>>,
    upper: Seq<Seq<char>>,
)
    requires
        words.len() > 0,
    ensures
        ({
            let m = meaning(words, lower, upper, false);
            let n = words.len();
            let cmd = lower[0];
            &&& cmd == "alarm"@ && n >= 3 ==> m == (LineView::Alarm {
                mac: upper[1],
                state: alarm_state(lower[2]),
            })
            &&& cmd == "alarm"@ && n < 3 ==> m == LineView::TooFewWords(Usage::Alarm)
            &&& (cmd == "heartbeat"@ || cmd == "hb"@) && n >= 2 ==> m == (LineView::Heartbeat {
                mac: upper[1],
            })
            &&& (cmd == "heartbeat"@ || cmd == "hb"@) && n < 2 ==> m == LineView::TooFewWords(
                Usage::Heartbeat,
            )
            &&& cmd == "climate"@ && n >= 4 ==> m == (LineView::Climate {
                mac: upper[1],
                temperature: words[2],
                humidity: humidity_of(words[3]),
            })
            &&& cmd == "climate"@ && n < 4 ==> m == LineView::TooFewWords(Usage::Climate)
            &&& cmd == "leak"@ && n >= 3 ==> m == (LineView::Leak {
                mac: upper[1],
                state: leak_state(lower[2]),
            })
            &&& cmd == "leak"@ && n < 3 ==> m == LineView::TooFewWords(Usage::Leak)
            &&& cmd == "stopscan"@ ==> m is StopScan
            &&& cmd == "sensors"@ || cmd == "list"@ ==> m is Sensors
            &&& cmd == "help"@ || cmd == "?"@ ==> m is Help
            &&& cmd == "quit"@ || cmd == "exit"@ ==> m is Quit
            &&& m is Unknown ==> m == LineView::Unknown(cmd)
            &&& !(m is Announce) && !(m is BadMac) && !(m is Empty)
        }),
        meaning(Seq::empty(), lower, upper, true) is Empty,
        meaning(Seq::empty(), lower, upper, false) is Empty,
{
    lemma_commands_differ();
}

/// What is typed during a search: a sensor that comes up, by its address and, if a second word
/// names it, its type, which is a contact sensor otherwise. Only a few commands keep their
/// meaning; what is no address is told so.
pub proof fn law_sensors_that_are_typed(
    words: Seq<Seq<char>>,
    lower: Seq<Seq<char>>,
    upper: Seq<Seq<char>>,
)
    requires
        words.len() > 0,
        lower.len() == words.len(),
    ensures
        ({
            let m = meaning(words, lower, upper, true);
            let cmd = lower[0];
            let kept = cmd == "stopscan"@ || cmd == "help"@ || cmd == "quit"@ || cmd == "sensors"@
                || cmd == "exit"@;
            &&& kept ==> m == meaning(words, lower, upper, false)
            &&& !kept && is_sensor_mac(upper[0]) ==> {
                &&& m is Announce
                &&& m->Announce_mac == upper[0]
                &&& words.len() == 1 ==> m->Announce_kind == "contact"@
                    && m->Announce_sensor_type is ContactV1
                &&& words.len() > 1 ==> m->Announce_kind == lower[1]
                &&& words.len() > 1 && SensorType::of_name(lower[1]) is Some
                    ==> m->Announce_sensor_type == SensorType::of_name(lower[1])->0
                &&& words.len() > 1 && SensorType::of_name(lower[1]) is None
                    ==> m->Announce_sensor_type is ContactV2
            }
            &&& !kept && !is_sensor_mac(upper[0]) ==> m is BadMac
        }),
{
    crate::protocol::telemetry::law_names_of_types("contact"@);
}

/// A sensor that comes up on the console starts out closed, with the readings of a new sensor,
/// and these count for a sensor that is not bound; one that is bound keeps its own.
pub proof fn law_readings_on_the_console(s: StateView, mac: Seq<char>, kind: Seq<char>)
    ensures
        new_sensor(mac, kind).mac == mac,
        new_sensor(mac, kind).sensor_type == kind,
        new_sensor(mac, kind).battery == 90,
        new_sensor(mac, kind).rssi == 60,
        new_sensor(mac, kind).state_code() == 0,
        new_sensor(mac, kind).auto_event_interval_secs is None,
        dongle::last_with(s.sensors, mac) is None ==> readings(s, mac) == (90u8, 60u8),
        dongle::last_with(s.sensors, mac) matches Some(x) ==> readings(s, mac) == (
            x.battery,
            x.rssi,
        ),
{
    reveal_strlit("closed");
    reveal_strlit("open");
    reveal_strlit("active");
    reveal_strlit("1");
    assert("closed"@.len() == 6 && "open"@.len() == 4 && "1"@.len() == 1);
    assert("closed"@[0] == 'c' && "active"@[0] == 'a');
}

/// What is sent to the bridge on a command is read there as what was typed: the alarm of the
/// sensor with its state, its heartbeat, its temperature and humidity, its leak. Commands that
/// report nothing send nothing.
pub proof fn law_typed_reports_are_read(
    s: StateView,
    c: LineView,
    temperature: Degrees,
    now: u64,
    later: u64,
)
    ensures
        c is Alarm && encode_utf8(c->Alarm_mac).len() == 8 && readings(s, c->Alarm_mac).1 <= 128
            ==> {
            let e = dongle::read_by_bridge(sent(s, c, temperature, now)->0, None, later);
            &&& sent(s, c, temperature, now) is Some
            &&& e is Some
            &&& e->0.mac == c->Alarm_mac
            &&& e->0.timestamp == now
            &&& e->0.data is Alarm
            &&& e->0.data->Alarm_state == c->Alarm_state
            &&& e->0.data->Alarm_battery == readings(s, c->Alarm_mac).0
        },
        c is Heartbeat && encode_utf8(c->Heartbeat_mac).len() == 8 && readings(
            s,
            c->Heartbeat_mac,
        ).1 <= 128 ==> {
            let e = dongle::read_by_bridge(sent(s, c, temperature, now)->0, None, later);
            &&& sent(s, c, temperature, now) is Some
            &&& e is Some
            &&& e->0.mac == c->Heartbeat_mac
            &&& e->0.data is Heartbeat
            &&& e->0.data->Heartbeat_battery == readings(s, c->Heartbeat_mac).0
        },
        c is Climate && encode_utf8(c->Climate_mac).len() == 8 && readings(s, c->Climate_mac).1
            <= 128 ==> {
            let e = dongle::read_by_bridge(sent(s, c, temperature, now)->0, None, later);
            &&& sent(s, c, temperature, now) is Some
            &&& e is Some
            &&& e->0.mac == c->Climate_mac
            &&& e->0.data is Climate
            &&& e->0.data->temperature == temperature.whole * 100 + temperature.hundredths
            &&& e->0.data->humidity == c->humidity
        },
        c is Leak && encode_utf8(c->Leak_mac).len() == 8 && readings(s, c->Leak_mac).1 <= 128 ==> {
            let e = dongle::read_by_bridge(sent(s, c, temperature, now)->0, None, later);
            &&& sent(s, c, temperature, now) is Some
            &&& e is Some
            &&& e->0.mac == c->Leak_mac
            &&& e->0.data is Leak
            &&& e->0.data->Leak_state == c->Leak_state
        },
        sent(s, c, temperature, now) is Some <==> c is Announce || c is Alarm || c is Heartbeat
            || c is Climate || c is Leak,
{
    match c {
        LineView::Alarm { mac, state } => {
            if encode_utf8(mac).len() == 8 && readings(s, mac).1 <= 128 {
                dongle::law_simulated_reports_are_read(
                    now,
                    mac,
                    state,
                    temperature,
                    0,
                    readings(s, mac).0,
                    readings(s, mac).1,
                    None,
                    later,
                );
            }
        },
        LineView::Heartbeat { mac } => {
            if encode_utf8(mac).len() == 8 && readings(s, mac).1 <= 128 {
                dongle::law_simulated_reports_are_read(
                    now,
                    mac,
                    0,
                    temperature,
                    0,
                    readings(s, mac).0,
                    readings(s, mac).1,
                    None,
                    later,
                );
            }
        },
        LineView::Climate { mac, humidity, .. } => {
            if encode_utf8(mac).len() == 8 && readings(s, mac).1 <= 128 {
                dongle::law_simulated_reports_are_read(
                    now,
                    mac,
                    0,
                    temperature,
                    humidity,
                    readings(s, mac).0,
                    readings(s, mac).1,
                    None,
                    later,
                );
            }
        },
        LineView::Leak { mac, state } => {
            if encode_utf8(mac).len() == 8 && readings(s, mac).1 <= 128 {
                dongle::law_simulated_reports_are_read(
                    now,
                    mac,
                    state,
                    temperature,
                    0,
                    readings(s, mac).0,
                    readings(s, mac).1,
                    None,
                    later,
                );
            }
        },
        _ => {},
    }
}

/// A sensor that comes up on the console is read by the bridge as one that came up in a scan,
/// under its address and type.
pub proof fn law_typed_sensor_is_read(
    s: StateView,
    c: LineView,
    temperature: Degrees,
    now: u64,
    later: u64,
)
    requires
        c is Announce,
        encode_utf8(c->Announce_mac).len() == 8,
        !(c->Announce_sensor_type is Unknown),
    ensures
        ({
            let e = dongle::read_by_bridge(sent(s, c, temperature, now)->0, None, later);
            &&& e is Some
            &&& e->0.mac == c->Announce_mac
            &&& e->0.sensor_type == c->Announce_sensor_type
            &&& e->0.data == (TelemetryView::Scanned { version: 0x19 })
        }),
{
    let mac = c->Announce_mac;
    let t = c->Announce_sensor_type;
    let p = events::async_packet(0x20, events::scan_payload(mac, t, 0x19));
    events::law_mac_field_length(mac);
    assert(p.wire() + Seq::<u8>::empty() =~= p.wire());
    crate::protocol::packet::law_parse_of_wire(p, Seq::empty());
    events::law_scan_reads_back(mac, t, 0x19, later);
    crate::protocol::telemetry::law_sensor_codes(0, t);
}

/// The address of a sensor is eight characters, each a digit or a letter of ASCII, small or
/// capital.
pub proof fn law_addresses_that_are_typed(mac: Seq<char>, c: char)
    ensures
        is_sensor_mac(mac) <==> mac.len() == 8 && forall|i: int|
            0 <= i < mac.len() ==> is_ascii_alphanumeric(#[trigger] mac[i]),
        is_ascii_alphanumeric('0') && is_ascii_alphanumeric('9'),
        is_ascii_alphanumeric('A') && is_ascii_alphanumeric('Z'),
        is_ascii_alphanumeric('a') && is_ascii_alphanumeric('z'),
        is_ascii_alphanumeric(c) ==> 48 <= c as u32 <= 57 || 65 <= c as u32 <= 90 || 97 <= c as u32
            <= 122,
        48 <= c as u32 <= 57 || 65 <= c as u32 <= 90 || 97 <= c as u32 <= 122
            ==> is_ascii_alphanumeric(c),
{
    if forall|i: int| 0 <= i < mac.len() ==> is_ascii_alphanumeric(#[trigger] mac[i]) {
        assert forall|i: int| 0 <= i < mac.len() implies (#[trigger] mac[i] as u32) < 128 by {
            assert(is_ascii_alphanumeric(mac[i]));
        }
        assert(is_ascii_chars(mac));
        is_ascii_chars_encode_utf8(mac);
    }
}

} // verus!
