//! The web interface: what it is asked, and how it answers.
//!
//! Nothing here serves a page. Requests come in as values, answers go out as values.
use crate::config::state::{PersistedSensorState, PersistedView};
use crate::engine::command::{Request, RequestView};
use crate::engine::Engine;
use crate::order;
use crate::order::Placed;
use crate::protocol::manager;
use crate::protocol::manager::SensorManager;
use crate::protocol::packet;
use crate::protocol::packet::{Packet, PacketView, ParseError};
use crate::protocol::sensor::SensorState;
use crate::protocol::telemetry::SensorType;
use crate::text;
use vstd::prelude::*;
use vstd::string::*;

verus! {

// ---------------------------------------------------------------------------
// Types
// ---------------------------------------------------------------------------

/// The state of a dongle.
#[derive(Debug, PartialEq, Eq)]
pub struct DongleStateResponse {
    pub connected: bool,
    pub mac: Option<String>,
    pub version: Option<String>,
}

/// A list of sensors.
#[derive(Debug, PartialEq, Eq)]
pub struct SensorsListResponse {
    pub sensors: Vec<PersistedSensorState>,
}

/// What was done.
#[derive(Debug, PartialEq, Eq)]
pub struct SuccessResponse {
    pub success: bool,
    pub message: String,
}

/// Asks a dongle to search for sensors, or to end its search.
#[derive(Debug, PartialEq, Eq)]
pub struct ScanRequest {
    pub enable: bool,
    pub dongle_mac: String,
}

/// Whether a search is on.
#[derive(Debug, Copy, Clone, PartialEq, Eq, Structural)]
pub struct ScanResponse {
    pub scan_active: bool,
}

/// Asks a dongle to bind a sensor.
#[derive(Debug, PartialEq, Eq)]
pub struct VerifyRequest {
    pub mac: String,
    pub sensor_type: String,
    pub dongle_mac: String,
}

/// Asks for bytes to be sent to a dongle.
#[derive(Debug, PartialEq, Eq)]
pub struct RawPacketRequest {
    pub bytes: Vec<u8>,
    pub dongle_mac: String,
}

/// The bytes that came back.
#[derive(Debug, PartialEq, Eq)]
pub struct RawPacketResponse {
    pub response_bytes: Vec<u8>,
}

/// What was purged.
#[derive(Debug, PartialEq, Eq)]
pub struct FixResponse {
    pub success: bool,
    pub purged_count: usize,
    pub purged_macs: Vec<String>,
}

// ---------------------------------------------------------------------------
// Listing sensors
// ---------------------------------------------------------------------------

impl Placed for PersistedSensorState {
    open spec fn place(v: PersistedView) -> Seq<char> {
        v.mac
    }

    fn place_text(&self) -> (r: &str) {
        self.mac.as_str()
    }
}

/// A sensor that the dongle lists and of which nothing else is known.
pub open spec fn stranger(mac: Seq<char>) -> PersistedView {
    PersistedView {
        mac,
        sensor_type: "unknown"@,
        last_seen: 0,
        battery: Some(100),
        battery_raw: None,
        signal: -60i8,
        die_temperature_c: None,
        event_sequence: None,
        state: SensorState::Unknown,
        dongle_mac: None,
    }
}

/// A sensor as it is listed.
pub open spec fn listed_sensor(m: manager::Sensors, mac: Seq<char>) -> PersistedView {
    if m.contains_key(mac) {
        manager::record(m[mac].mac, m[mac])
    } else {
        stranger(mac)
    }
}

fn make_stranger(mac: &str) -> (r: PersistedSensorState)
    ensures
        r@ == stranger(mac@),
{
    PersistedSensorState {
        mac: mac.to_owned(),
        sensor_type: "unknown".to_owned(),
        last_seen: 0,
        battery: Some(100),
        battery_raw: None,
        signal: -60,
        die_temperature_c: None,
        event_sequence: None,
        state: SensorState::Unknown,
        dongle_mac: None,
    }
}

/// Lists the sensors that a dongle reports, in the order of their MAC addresses.
pub fn list_sensors(manager: &SensorManager, macs: Vec<String>) -> (r: SensorsListResponse)
    requires
        manager.wf(),
    ensures
        exists|sorted: Seq<Seq<char>>|
            {
                &&& #[trigger] order::ascending(sorted)
                &&& sorted.to_multiset() == text::views(macs@).to_multiset()
                &&& order::models(r.sensors@) == Seq::new(
                    sorted.len(),
                    |i: int| listed_sensor(manager@, sorted[i]),
                )
            },
{
    let sorted = order::sort_texts(macs);
    let ghost s = text::views(sorted@);
    let mut sensors: Vec<PersistedSensorState> = Vec::new();
    let mut i: usize = 0;
    while i < sorted.len()
        invariant
            i <= sorted@.len(),
            s == text::views(sorted@),
            manager.wf(),
            sensors@.len() == i,
            forall|j: int|
                0 <= j < i ==> (#[trigger] sensors@[j])@ == listed_sensor(manager@, s[j]),
        decreases sorted@.len() - i,
    {
        let mac = sorted[i].as_str();
        match manager.get_sensors().get(mac) {
            Some(x) => {
                sensors.push(manager::make_record(x.mac.as_str(), x));
            },
            None => {
                sensors.push(make_stranger(mac));
            },
        }
        i += 1;
    }
    proof {
        assert(order::models(sensors@) =~= Seq::new(
            s.len(),
            |i: int| listed_sensor(manager@, s[i]),
        ));
        assert(order::ascending(s));
    }
    SensorsListResponse { sensors }
}

/// The sensors of the bridge as they are listed, in the order in which they came.
pub open spec fn all_listed(m: manager::Sensors, keys: Seq<Seq<char>>) -> Seq<PersistedView> {
    Seq::new(keys.len(), |i: int| manager::record(m[keys[i]].mac, m[keys[i]]))
}

/// Lists the sensors of the bridge in the order of their MAC addresses.
pub fn list_cached_sensors(manager: &SensorManager) -> (r: SensorsListResponse)
    requires
        manager.wf(),
    ensures
        order::ascending(order::places::<PersistedSensorState>(order::models(r.sensors@))),
        order::models(r.sensors@).to_multiset() == all_listed(
            manager@,
            manager.keys(),
        ).to_multiset(),
{
    let known = manager.get_sensors();
    let ghost keys = manager.keys();
    let mut sensors: Vec<PersistedSensorState> = Vec::new();
    let mut i: usize = 0;
    while i < known.len()
        invariant
            known.wf(),
            known@ == manager@,
            known.keys() == keys,
            i <= keys.len(),
            sensors@.len() == i,
            forall|j: int|
                0 <= j < i ==> (#[trigger] sensors@[j])@ == manager::record(
                    manager@[keys[j]].mac,
                    manager@[keys[j]],
                ),
        decreases keys.len() - i,
    {
        let s = known.value(i);
        sensors.push(manager::make_record(s.mac.as_str(), s));
        i += 1;
    }
    proof {
        assert(order::models(sensors@) =~= all_listed(manager@, keys));
    }
    SensorsListResponse { sensors: order::sort(sensors) }
}

/// Those of the keys whose sensors belong to a dongle, or to none.
pub open spec fn keys_of_dongle(
    m: manager::Sensors,
    keys: Seq<Seq<char>>,
    dongle: Option<Seq<char>>,
) -> Seq<Seq<char>>
    decreases keys.len(),
{
    if keys.len() == 0 {
        Seq::empty()
    } else if m[keys.last()].dongle_mac == dongle {
        keys_of_dongle(m, keys.drop_last(), dongle).push(keys.last())
    } else {
        keys_of_dongle(m, keys.drop_last(), dongle)
    }
}

fn same_option(a: &Option<String>, b: &Option<String>) -> (r: bool)
    ensures
        r == (text::option_view(*a) == text::option_view(*b)),
{
    match (a, b) {
        (Some(x), Some(y)) => text::same(x.as_str(), y.as_str()),
        (None, None) => true,
        _ => false,
    }
}

/// Lists the sensors that belong to a dongle, or to none, in the order of their MAC
/// addresses.
pub fn sensors_of_dongle(manager: &SensorManager, dongle: &Option<String>) -> (r: Vec<
    PersistedSensorState,
>)
    requires
        manager.wf(),
    ensures
        order::ascending(order::places::<PersistedSensorState>(order::models(r@))),
        order::models(r@).to_multiset() == all_listed(
            manager@,
            keys_of_dongle(manager@, manager.keys(), text::option_view(*dongle)),
        ).to_multiset(),
{
    let known = manager.get_sensors();
    let ghost keys = manager.keys();
    let ghost d = text::option_view(*dongle);
    let mut sensors: Vec<PersistedSensorState> = Vec::new();
    proof {
        assert(order::models(sensors@) =~= all_listed(
            manager@,
            keys_of_dongle(manager@, keys.subrange(0, 0), d),
        ));
    }
    let mut i: usize = 0;
    while i < known.len()
        invariant
            known.wf(),
            known@ == manager@,
            known.keys() == keys,
            d == text::option_view(*dongle),
            i <= keys.len(),
            order::models(sensors@) == all_listed(
                manager@,
                keys_of_dongle(manager@, keys.subrange(0, i as int), d),
            ),
        decreases keys.len() - i,
    {
        let s = known.value(i);
        let ghost w = keys.subrange(0, i + 1);
        let ghost before = keys_of_dongle(manager@, keys.subrange(0, i as int), d);
        proof {
            assert(w.drop_last() =~= keys.subrange(0, i as int));
            assert(w.last() == keys[i as int]);
        }
        let ghost old_models = order::models(sensors@);
        if same_option(&s.dongle_mac, dongle) {
            sensors.push(manager::make_record(s.mac.as_str(), s));
            proof {
                assert(order::models(sensors@) =~= old_models.push(
                    manager::record(s@.mac, s@),
                ));
                assert(all_listed(manager@, before.push(keys[i as int])) =~= all_listed(
                    manager@,
                    before,
                ).push(manager::record(s@.mac, s@)));
            }
        }
        i += 1;
    }
    proof {
        assert(keys.subrange(0, keys.len() as int) =~= keys);
    }
    order::sort(sensors)
}

// ---------------------------------------------------------------------------
// Dongles
// ---------------------------------------------------------------------------

/// The state of a dongle.
pub fn get_dongle_state(engine: &Engine) -> (r: DongleStateResponse)
    ensures
        r.connected == engine@.dongle_mac is Some,
        text::option_view(r.mac) == engine@.dongle_mac,
        text::option_view(r.version) == engine@.dongle_version,
{
    let mac: Option<String> = match engine.dongle_mac() {
        Some(s) => Some(s.to_owned()),
        None => None,
    };
    let version: Option<String> = match engine.dongle_version() {
        Some(s) => Some(s.to_owned()),
        None => None,
    };
    DongleStateResponse { connected: mac.is_some(), mac, version }
}

/// The dongles with whether they search for sensors.
pub open spec fn scanning_list(s: Seq<(String, bool)>) -> Seq<(Seq<char>, bool)> {
    Seq::new(s.len(), |i: int| (s[i].0@, s[i].1))
}

/// What becomes of a request for a search.
#[derive(Debug, Copy, Clone, PartialEq, Eq, Structural)]
pub enum ScanVerdict {
    /// There is no such dongle.
    UnknownDongle,
    /// Another dongle searches.
    Busy,
    /// The dongle is asked.
    Granted,
}

impl ScanVerdict {
    /// The status of the answer.
    pub open spec fn code(self) -> u16 {
        match self {
            ScanVerdict::UnknownDongle => 404,
            ScanVerdict::Busy => 409,
            ScanVerdict::Granted => 200,
        }
    }

    /// The status of the answer.
    pub fn status(self) -> (r: u16)
        ensures
            r == self.code(),
    {
        match self {
            ScanVerdict::UnknownDongle => 404,
            ScanVerdict::Busy => 409,
            ScanVerdict::Granted => 200,
        }
    }
}

/// The dongle is connected.
pub open spec fn is_connected(dongles: Seq<(Seq<char>, bool)>, mac: Seq<char>) -> bool {
    exists|i: int| 0 <= i < dongles.len() && (#[trigger] dongles[i]).0 == mac
}

/// Another dongle searches for sensors.
pub open spec fn other_scans(dongles: Seq<(Seq<char>, bool)>, mac: Seq<char>) -> bool {
    exists|i: int| 0 <= i < dongles.len() && (#[trigger] dongles[i]).0 != mac && dongles[i].1
}

/// What becomes of a request for a search: only one dongle searches at a time.
pub open spec fn scan_verdict(
    dongles: Seq<(Seq<char>, bool)>,
    mac: Seq<char>,
    enable: bool,
) -> ScanVerdict {
    if !is_connected(dongles, mac) {
        ScanVerdict::UnknownDongle
    } else if enable && other_scans(dongles, mac) {
        ScanVerdict::Busy
    } else {
        ScanVerdict::Granted
    }
}

/// What becomes of a request for a search, among dongles of which it is known whether they
/// search.
pub fn check_scan(request: &ScanRequest, dongles: &[(String, bool)]) -> (r: ScanVerdict)
    ensures
        r == scan_verdict(scanning_list(dongles@), request.dongle_mac@, request.enable),
{
    let ghost v = scanning_list(dongles@);
    let mut found = false;
    let mut busy = false;
    let mut i: usize = 0;
    while i < dongles.len()
        invariant
            i <= dongles@.len(),
            v == scanning_list(dongles@),
            found ==> is_connected(v, request.dongle_mac@),
            busy ==> other_scans(v, request.dongle_mac@),
            !found ==> forall|j: int| 0 <= j < i ==> (#[trigger] v[j]).0 != request.dongle_mac@,
            !busy ==> forall|j: int|
                0 <= j < i ==> !((#[trigger] v[j]).0 != request.dongle_mac@ && v[j].1),
        decreases dongles@.len() - i,
    {
        proof {
            assert(v[i as int] == (dongles@[i as int].0@, dongles@[i as int].1));
        }
        if text::same(dongles[i].0.as_str(), request.dongle_mac.as_str()) {
            found = true;
        } else if dongles[i].1 {
            busy = true;
        }
        i += 1;
    }
    if !found {
        ScanVerdict::UnknownDongle
    } else if request.enable && busy {
        ScanVerdict::Busy
    } else {
        ScanVerdict::Granted
    }
}

/// Where a MAC address stands among those of the connected dongles.
pub open spec fn place_of(dongles: Seq<Seq<char>>, mac: Seq<char>) -> Option<int> {
    if dongles.contains(mac) {
        Some(dongles.index_of_first(mac)->0)
    } else {
        None
    }
}

/// The dongle to which a request about a sensor goes: the one that it names, else the one
/// to which the sensor belongs, else the first that is connected. A dongle that is named
/// has to be connected.
pub open spec fn dongle_for(
    m: manager::Sensors,
    mac: Seq<char>,
    named: Option<Seq<char>>,
    dongles: Seq<Seq<char>>,
) -> Option<int> {
    match named {
        Some(d) => place_of(dongles, d),
        None => {
            let owner = if m.contains_key(mac) {
                m[mac].dongle_mac
            } else {
                None
            };
            if owner is Some && dongles.contains(owner->0) {
                place_of(dongles, owner->0)
            } else if dongles.len() > 0 {
                Some(0)
            } else {
                None
            }
        },
    }
}

fn find(dongles: &[String], mac: &str) -> (r: Option<usize>)
    ensures
        match r {
            Some(i) => i < dongles@.len() && place_of(text::views(dongles@), mac@) == Some(
                i as int,
            ),
            None => place_of(text::views(dongles@), mac@) is None,
        },
{
    let ghost v = text::views(dongles@);
    let mut i: usize = 0;
    while i < dongles.len()
        invariant
            i <= dongles@.len(),
            v == text::views(dongles@),
            forall|j: int| 0 <= j < i ==> #[trigger] v[j] != mac@,
        decreases dongles@.len() - i,
    {
        if text::same(dongles[i].as_str(), mac) {
            proof {
                assert(v[i as int] == mac@);
                v.index_of_first_ensures(mac@);
                let k = v.index_of_first(mac@)->0;
                assert(v[k] == mac@);
                if k > i {
                    assert(v[i as int] != mac@);
                }
            }
            return Some(i);
        }
        i += 1;
    }
    proof {
        if v.contains(mac@) {
            assert(v[v.index_of(mac@)] == mac@);
        }
    }
    None
}

/// The dongle to which a request about a sensor goes.
pub fn pick_dongle(
    manager: &SensorManager,
    mac: &str,
    named: &Option<String>,
    dongles: &[String],
) -> (r: Option<usize>)
    requires
        manager.wf(),
    ensures
        match r {
            Some(i) => i < dongles@.len() && dongle_for(
                manager@,
                mac@,
                text::option_view(*named),
                text::views(dongles@),
            ) == Some(i as int),
            None => dongle_for(
                manager@,
                mac@,
                text::option_view(*named),
                text::views(dongles@),
            ) is None,
        },
{
    match named {
        Some(d) => find(dongles, d.as_str()),
        None => {
            match manager.get_sensors().get(mac) {
                Some(s) => match &s.dongle_mac {
                    Some(owner) => match find(dongles, owner.as_str()) {
                        Some(i) => {
                            return Some(i);
                        },
                        None => {},
                    },
                    None => {},
                },
                None => {},
            }
            if dongles.len() > 0 {
                Some(0)
            } else {
                None
            }
        },
    }
}

// ---------------------------------------------------------------------------
// Answers
// ---------------------------------------------------------------------------

fn success(before: &str, mac: &str, after: &str) -> (r: SuccessResponse)
    ensures
        r.success,
        r.message@ == before@ + mac@ + after@,
{
    let mut message = before.to_owned();
    message.append(mac);
    message.append(after);
    SuccessResponse { success: true, message }
}

/// A sensor was unbound.
pub fn unpaired(mac: &str) -> (r: SuccessResponse)
    ensures
        r.success,
        r.message@ == "Sensor "@ + mac@ + " successfully deleted"@,
{
    success("Sensor ", mac, " successfully deleted")
}

/// A sensor was bound.
pub fn verified(mac: &str) -> (r: SuccessResponse)
    ensures
        r.success,
        r.message@ == "Sensor "@ + mac@ + " successfully verified"@,
{
    success("Sensor ", mac, " successfully verified")
}

/// A chime was rung.
pub fn chimed(mac: &str) -> (r: SuccessResponse)
    ensures
        r.success,
        r.message@ == "Chime triggered on "@ + mac@,
{
    let mut message = "Chime triggered on ".to_owned();
    message.append(mac);
    SuccessResponse { success: true, message }
}

/// Entries of a listing were purged.
pub fn purged(macs: Vec<String>) -> (r: FixResponse)
    ensures
        r.success,
        r.purged_count == macs@.len(),
        r.purged_macs == macs,
{
    FixResponse { success: true, purged_count: macs.len(), purged_macs: macs }
}

/// The type that a request names; a name that is none means an unknown type.
pub open spec fn named_type(s: Seq<char>) -> SensorType {
    match SensorType::of_name(s) {
        Some(t) => t,
        None => SensorType::Unknown(0),
    }
}

/// The type that a request names.
pub fn requested_type(request: &VerifyRequest) -> (r: SensorType)
    ensures
        r == named_type(request.sensor_type@),
{
    match SensorType::from_name(request.sensor_type.as_str()) {
        Ok(t) => t,
        Err(_) => SensorType::Unknown(0),
    }
}

// ---------------------------------------------------------------------------
// Raw packets
// ---------------------------------------------------------------------------

/// The exchange that raw bytes ask for: the packet that they hold, and as its answer the
/// packet whose command word follows.
pub open spec fn raw_result(bytes: Seq<u8>) -> Result<RequestView, ParseError> {
    match packet::parse_result(bytes) {
        Ok((p, _)) => Ok(RequestView { packet: p, expected: (p.cmd() + 1) as u16 }),
        Err(e) => Err(e),
    }
}

/// The exchange that raw bytes ask for.
pub fn raw_request(bytes: &[u8]) -> (r: Result<Request, ParseError>)
    ensures
        match r {
            Ok(q) => raw_result(bytes@) == Ok::<RequestView, ParseError>(q@),
            Err(e) => raw_result(bytes@) == Err::<RequestView, ParseError>(e),
        },
{
    match Packet::decode(bytes) {
        Ok((p, _)) => {
            let expected: u16 = p.cmd() + 1;
            Ok(Request { packet: p, expected })
        },
        Err(e) => Err(e),
    }
}

/// Raw bytes are no packet.
pub fn raw_refused(e: ParseError) -> (r: String)
    ensures
        r@ == "Failed to parse input bytes as Packet structure: "@ + e.text()@,
{
    let mut t = "Failed to parse input bytes as Packet structure: ".to_owned();
    t.append(e.message());
    t
}

/// The dongle did not answer raw bytes.
pub fn raw_failed(reason: &str) -> (r: String)
    ensures
        r@ == "Dongle failed raw execution: "@ + reason@,
{
    let mut t = "Dongle failed raw execution: ".to_owned();
    t.append(reason);
    t
}

/// The answer to raw bytes.
pub fn raw_answered(p: &Packet) -> (r: RawPacketResponse)
    ensures
        r.response_bytes@ == p@.wire(),
{
    RawPacketResponse { response_bytes: p.to_bytes() }
}

// ---------------------------------------------------------------------------
// Laws
// ---------------------------------------------------------------------------

/// No two dongles search for sensors.
pub open spec fn one_scans(dongles: Seq<(Seq<char>, bool)>) -> bool {
    forall|i: int, j: int|
        #![trigger dongles[i], dongles[j]]
        0 <= i < j < dongles.len() ==> !(dongles[i].1 && dongles[j].1)
}

/// A dongle was asked to search, or to end its search, and confirmed it.
pub open spec fn with_scan(
    dongles: Seq<(Seq<char>, bool)>,
    mac: Seq<char>,
    enable: bool,
) -> Seq<(Seq<char>, bool)> {
    Seq::new(
        dongles.len(),
        |i: int|
            if dongles[i].0 == mac {
                (mac, enable)
            } else {
                dongles[i]
            },
    )
}

/// Only one dongle searches at a time: a request that is granted keeps it so.
pub proof fn law_scan_is_exclusive(
    dongles: Seq<(Seq<char>, bool)>,
    mac: Seq<char>,
    enable: bool,
)
    requires
        one_scans(dongles),
        forall|i: int, j: int|
            #![trigger dongles[i], dongles[j]]
            0 <= i < j < dongles.len() ==> dongles[i].0 != dongles[j].0,
        scan_verdict(dongles, mac, enable) is Granted,
    ensures
        one_scans(with_scan(dongles, mac, enable)),
{
    let after = with_scan(dongles, mac, enable);
    assert forall|i: int, j: int|
        #![trigger after[i], after[j]]
        0 <= i < j < after.len() implies !(after[i].1 && after[j].1) by {
        assert(dongles[i].0 != dongles[j].0);
        assert(!(dongles[i].1 && dongles[j].1));
        if enable {
            assert(!other_scans(dongles, mac));
        }
    }
}

/// A search can always be ended, and when it is, any other dongle may search.
pub proof fn law_scan_can_move_on(
    dongles: Seq<(Seq<char>, bool)>,
    mac: Seq<char>,
    other: Seq<char>,
)
    requires
        one_scans(dongles),
        is_connected(dongles, mac),
        is_connected(dongles, other),
        exists|i: int| 0 <= i < dongles.len() && #[trigger] dongles[i] == (mac, true),
    ensures
        scan_verdict(dongles, mac, false) is Granted,
        scan_verdict(with_scan(dongles, mac, false), other, true) is Granted,
{
    let after = with_scan(dongles, mac, false);
    let k = choose|i: int| 0 <= i < dongles.len() && #[trigger] dongles[i] == (mac, true);
    let o = choose|i: int| 0 <= i < dongles.len() && (#[trigger] dongles[i]).0 == other;
    assert(after[o].0 == other);
    assert forall|i: int| 0 <= i < after.len() implies !(#[trigger] after[i]).1 by {
        if dongles[i].0 != mac {
            if i < k {
                assert(!(dongles[i].1 && dongles[k].1));
            } else {
                assert(!(dongles[k].1 && dongles[i].1));
            }
        }
    }
}

/// A sensor stands in the list of the dongle to which it belongs, and in no other.
pub proof fn law_sensor_is_listed_under_its_dongle(
    m: manager::Sensors,
    keys: Seq<Seq<char>>,
    dongle: Option<Seq<char>>,
    k: Seq<char>,
)
    ensures
        keys_of_dongle(m, keys, dongle).contains(k) <==> keys.contains(k) && m[k].dongle_mac
            == dongle,
    decreases keys.len(),
{
    if keys.len() > 0 {
        let d = keys.drop_last();
        law_sensor_is_listed_under_its_dongle(m, d, dongle, k);
        let e = keys_of_dongle(m, d, dongle);
        assert(keys.contains(k) <==> d.contains(k) || k == keys.last()) by {
            if d.contains(k) {
                assert(keys[d.index_of(k)] == k);
            }
            if keys.contains(k) {
                let j = keys.index_of(k);
                if j < d.len() {
                    assert(d[j] == k);
                }
            }
            assert(keys[keys.len() - 1] == keys.last());
        }
        assert(e.push(keys.last()).contains(k) <==> e.contains(k) || k == keys.last()) by {
            if e.contains(k) {
                assert(e.push(keys.last())[e.index_of(k)] == k);
            }
            assert(e.push(keys.last())[e.len() as int] == keys.last());
        }
    }
}

/// Every sensor of the bridge stands in the list of all sensors, as it is remembered.
pub proof fn law_every_sensor_is_listed(manager: &SensorManager, k: Seq<char>)
    requires
        manager.wf(),
        manager@.contains_key(k),
    ensures
        all_listed(manager@, manager.keys()).len() == manager.keys().len(),
        all_listed(manager@, manager.keys()).contains(
            manager::record(manager@[k].mac, manager@[k]),
        ),
{
    manager::law_each_sensor_has_one_key(manager);
    let keys = manager.keys();
    assert(keys.contains(k));
    let j = keys.index_of(k);
    assert(all_listed(manager@, keys)[j] == manager::record(manager@[k].mac, manager@[k]));
}

/// A packet that is sent raw goes out as it is, and its answer is awaited under the
/// command word that follows its own.
pub proof fn law_raw_packet_goes_out(p: PacketView)
    requires
        p.representable(),
    ensures
        raw_result(p.wire()) == Ok::<RequestView, ParseError>(
            RequestView { packet: p, expected: (p.cmd() + 1) as u16 },
        ),
{
    packet::law_parse_of_wire(p, Seq::empty());
    assert(p.wire() + Seq::<u8>::empty() =~= p.wire());
}

/// How a request for a search is answered: 404 where the dongle is not connected, 409 where a
/// search is to start while another dongle searches, 200 in every other case.
pub proof fn law_scan_answers(dongles: Seq<(Seq<char>, bool)>, mac: Seq<char>, enable: bool)
    ensures
        ({
            let there = exists|i: int| 0 <= i < dongles.len() && (#[trigger] dongles[i]).0 == mac;
            let taken = exists|i: int|
                0 <= i < dongles.len() && (#[trigger] dongles[i]).0 != mac && dongles[i].1;
            let answer = scan_verdict(dongles, mac, enable).code();
            &&& answer == 404 <==> !there
            &&& answer == 409 <==> there && enable && taken
            &&& answer == 200 <==> there && !(enable && taken)
        }),
{
}

/// A dongle may search again, and may end its search, however often it is asked.
pub proof fn law_own_scan_is_no_obstacle(dongles: Seq<(Seq<char>, bool)>, mac: Seq<char>)
    requires
        is_connected(dongles, mac),
        forall|i: int| 0 <= i < dongles.len() && (#[trigger] dongles[i]).1 ==> dongles[i].0 == mac,
    ensures
        scan_verdict(dongles, mac, true) is Granted,
        scan_verdict(dongles, mac, false) is Granted,
{
}

/// The dongle that a request names is the one that is asked, and where it is not connected,
/// none is. A request that names none goes to the dongle to which the sensor belongs, if
/// that is connected, and else to the first that is.
pub proof fn law_request_finds_its_dongle(
    m: manager::Sensors,
    mac: Seq<char>,
    named: Option<Seq<char>>,
    dongles: Seq<Seq<char>>,
)
    ensures
        ({
            let r = dongle_for(m, mac, named, dongles);
            let owner = m[mac].dongle_mac;
            let owned = m.contains_key(mac) && owner is Some && dongles.contains(owner->0);
            &&& r is Some ==> 0 <= r->0 < dongles.len()
            &&& named is Some && dongles.contains(named->0) ==> r is Some && dongles[r->0]
                == named->0
            &&& named is Some && !dongles.contains(named->0) ==> r is None
            &&& named is None && owned ==> r is Some && dongles[r->0] == owner->0
            &&& named is None && !owned && dongles.len() > 0 ==> r == Some(0int)
            &&& named is None && dongles.len() == 0 ==> r is None
        }),
{
    if named is Some && dongles.contains(named->0) {
        dongles.index_of_first_ensures(named->0);
    }
    let owner = m[mac].dongle_mac;
    if owner is Some && dongles.contains(owner->0) {
        dongles.index_of_first_ensures(owner->0);
    }
}

/// How a sensor is listed: as the bridge knows it, with its readings in their places; one
/// that only the dongle knows as unknown, never seen, under its own address.
pub proof fn law_listed_sensor(m: manager::Sensors, mac: Seq<char>)
    ensures
        ({
            let r = listed_sensor(m, mac);
            &&& m.contains_key(mac) ==> {
                &&& r.mac == m[mac].mac
                &&& r.sensor_type == m[mac].sensor_type.name()
                &&& r.last_seen == m[mac].last_seen
                &&& r.battery == m[mac].battery_pct
                &&& r.battery_raw == m[mac].battery_raw
                &&& r.signal == m[mac].rssi_dbm
                &&& r.die_temperature_c == m[mac].die_temperature_c
                &&& r.event_sequence == m[mac].event_sequence
                &&& r.state == m[mac].state
                &&& r.dongle_mac == m[mac].dongle_mac
            }
            &&& !m.contains_key(mac) ==> {
                &&& r.mac == mac
                &&& r.sensor_type == "unknown"@
                &&& r.last_seen == 0
                &&& r.battery == Some(100u8)
                &&& r.battery_raw is None
                &&& r.signal == -60
                &&& r.state is Unknown
                &&& r.dongle_mac is None
            }
        }),
{
}

/// All sensors of the bridge are listed with their readings, in the order in which they came.
pub proof fn law_all_are_listed(m: manager::Sensors, keys: Seq<Seq<char>>, i: int)
    requires
        0 <= i < keys.len(),
    ensures
        all_listed(m, keys).len() == keys.len(),
        all_listed(m, keys)[i].mac == m[keys[i]].mac,
        all_listed(m, keys)[i].state == m[keys[i]].state,
        all_listed(m, keys)[i].signal == m[keys[i]].rssi_dbm,
        all_listed(m, keys)[i].battery == m[keys[i]].battery_pct,
        all_listed(m, keys)[i].last_seen == m[keys[i]].last_seen,
{
}

/// A request names a type by any name that the type has; any other name means an unknown type.
pub proof fn law_requested_types(s: Seq<char>, t: SensorType)
    ensures
        !(t is Unknown) ==> named_type(t.name()) == t,
        SensorType::of_name(s) is None ==> named_type(s) == SensorType::Unknown(0),
        s == "contactv2"@ ==> named_type(s) is ContactV2,
        s == "motionv2"@ ==> named_type(s) is MotionV2,
{
    crate::protocol::telemetry::law_sensor_names(t);
    crate::protocol::telemetry::law_names_of_types(s);
}

/// Raw bytes that are no packet are refused with the flaw that they have; the answer to a
/// packet is awaited under its command word plus one.
pub proof fn law_raw_bytes(bytes: Seq<u8>)
    ensures
        packet::parse_result(bytes) matches Err(e) ==> raw_result(bytes) == Err::<
            RequestView,
            ParseError,
        >(e),
        packet::parse_result(bytes) is Ok ==> {
            &&& raw_result(bytes) is Ok
            &&& raw_result(bytes)->Ok_0.packet == packet::parse_result(bytes)->Ok_0.0
            &&& raw_result(bytes)->Ok_0.expected == bytes[2] * 256 + bytes[4] + 1
        },
{
}

} // verus!
