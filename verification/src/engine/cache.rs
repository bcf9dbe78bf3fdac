//! The sensors that an engine keeps in memory, and when it gives them up.
use crate::protocol::telemetry::{DongleEvent, EventView, SensorType, TelemetryView};
use crate::registry::Registry;
use crate::text;
use vstd::prelude::*;
use vstd::string::*;

verus! {

/// How long a sensor may be silent, in milliseconds: two hours.
pub const SILENCE_MS: u64 = 7_200_000;

/// A sensor in memory.
#[derive(Debug, PartialEq, Eq)]
pub struct CachedSensor {
    pub mac: String,
    pub sensor_type: String,
    pub version: String,
    /// Seconds since the Unix epoch.
    pub last_seen: u64,
    pub battery: u8,
    pub signal: i8,
}

/// The model of a sensor in memory.
pub struct CachedView {
    pub mac: Seq<char>,
    pub sensor_type: Seq<char>,
    pub version: Seq<char>,
    pub last_seen: u64,
    pub battery: u8,
    pub signal: i8,
}

impl View for CachedSensor {
    type V = CachedView;

    open spec fn view(&self) -> CachedView {
        CachedView {
            mac: self.mac@,
            sensor_type: self.sensor_type@,
            version: self.version@,
            last_seen: self.last_seen,
            battery: self.battery,
            signal: self.signal,
        }
    }
}

impl Clone for CachedSensor {
    fn clone(&self) -> (r: Self)
        ensures
            r@ == self@,
    {
        CachedSensor {
            mac: self.mac.clone(),
            sensor_type: self.sensor_type.clone(),
            version: self.version.clone(),
            last_seen: self.last_seen,
            battery: self.battery,
            signal: self.signal,
        }
    }
}

/// The sensors in memory, by MAC address.
pub type Cached = Map<Seq<char>, CachedView>;

/// A sensor of which no more is known than its type and version.
pub open spec fn entry(
    mac: Seq<char>,
    sensor_type: Seq<char>,
    version: Seq<char>,
    now: u64,
) -> CachedView {
    CachedView { mac, sensor_type, version, last_seen: now, battery: 100, signal: -60i8 }
}

/// The name under which a type is kept in memory.
pub open spec fn variant_name(t: SensorType) -> Seq<char> {
    match t {
        SensorType::ContactV1 => "ContactV1"@,
        SensorType::MotionV1 => "MotionV1"@,
        SensorType::LeakV2 => "LeakV2"@,
        SensorType::ClimateV2 => "ClimateV2"@,
        SensorType::Chime => "Chime"@,
        SensorType::ContactV2 => "ContactV2"@,
        SensorType::MotionV2 => "MotionV2"@,
        SensorType::Unknown(b) => "Unknown("@ + text::decimal(b as nat) + ")"@,
    }
}

/// The name under which a type is kept in memory.
pub fn type_variant(t: SensorType) -> (r: String)
    ensures
        r@ == variant_name(t),
{
    match t {
        SensorType::ContactV1 => "ContactV1".to_owned(),
        SensorType::MotionV1 => "MotionV1".to_owned(),
        SensorType::LeakV2 => "LeakV2".to_owned(),
        SensorType::ClimateV2 => "ClimateV2".to_owned(),
        SensorType::Chime => "Chime".to_owned(),
        SensorType::ContactV2 => "ContactV2".to_owned(),
        SensorType::MotionV2 => "MotionV2".to_owned(),
        SensorType::Unknown(b) => {
            let mut s = "Unknown(".to_owned();
            s.append(text::to_decimal(b as u64).as_str());
            s.append(")");
            s
        },
    }
}

/// The type that a name in memory stands for.
pub open spec fn variant_of(s: Seq<char>) -> SensorType {
    if s == "ContactV1"@ {
        SensorType::ContactV1
    } else if s == "MotionV1"@ {
        SensorType::MotionV1
    } else if s == "ContactV2"@ {
        SensorType::ContactV2
    } else if s == "MotionV2"@ {
        SensorType::MotionV2
    } else if s == "LeakV2"@ {
        SensorType::LeakV2
    } else if s == "ClimateV2"@ {
        SensorType::ClimateV2
    } else if s == "Chime"@ {
        SensorType::Chime
    } else {
        SensorType::Unknown(0)
    }
}

fn variant_type(s: &str) -> (r: SensorType)
    ensures
        r == variant_of(s@),
{
    if text::same(s, "ContactV1") {
        SensorType::ContactV1
    } else if text::same(s, "MotionV1") {
        SensorType::MotionV1
    } else if text::same(s, "ContactV2") {
        SensorType::ContactV2
    } else if text::same(s, "MotionV2") {
        SensorType::MotionV2
    } else if text::same(s, "LeakV2") {
        SensorType::LeakV2
    } else if text::same(s, "ClimateV2") {
        SensorType::ClimateV2
    } else if text::same(s, "Chime") {
        SensorType::Chime
    } else {
        SensorType::Unknown(0)
    }
}

/// A sensor has been silent for too long at a millisecond.
pub open spec fn silent(c: CachedView, now_ms: u64) -> bool {
    now_ms - c.last_seen * 1000 > SILENCE_MS
}

fn is_silent(c: &CachedSensor, now_ms: u64) -> (r: bool)
    ensures
        r == silent(c@, now_ms),
{
    let whole: u64 = now_ms / 1000;
    if c.last_seen > whole {
        proof {
            assert(c.last_seen * 1000 > now_ms);
        }
        false
    } else {
        proof {
            assert(c.last_seen * 1000 <= now_ms);
        }
        now_ms - c.last_seen * 1000 > SILENCE_MS
    }
}

/// The event that tells that a sensor is gone.
pub open spec fn gone_event(k: Seq<char>, c: CachedView, now_ms: u64) -> EventView {
    EventView {
        mac: k,
        timestamp: now_ms,
        sensor_type: variant_of(c.sensor_type),
        event_type: 0,
        data: TelemetryView::Offline,
        dongle_mac: None,
    }
}

/// The events that tell which sensors are gone, in the order of the keys.
pub open spec fn gone_events(m: Cached, keys: Seq<Seq<char>>, now_ms: u64) -> Seq<EventView>
    decreases keys.len(),
{
    if keys.len() == 0 {
        Seq::empty()
    } else if silent(m[keys.last()], now_ms) {
        gone_events(m, keys.drop_last(), now_ms).push(
            gone_event(keys.last(), m[keys.last()], now_ms),
        )
    } else {
        gone_events(m, keys.drop_last(), now_ms)
    }
}

/// The sensors that are not gone.
pub open spec fn remaining(m: Cached, now_ms: u64) -> Cached {
    Map::new(
        |k: Seq<char>| m.contains_key(k) && !silent(m[k], now_ms),
        |k: Seq<char>| m[k],
    )
}

/// The models of events.
pub open spec fn event_views(s: Seq<DongleEvent>) -> Seq<EventView> {
    Seq::new(s.len(), |i: int| s[i]@)
}

/// The sensors that an engine keeps in memory.
#[derive(Debug)]
pub struct SensorCache {
    sensors: Registry<CachedSensor>,
}

impl View for SensorCache {
    type V = Cached;

    closed spec fn view(&self) -> Cached {
        self.sensors@
    }
}

impl SensorCache {
    /// No sensor stands twice.
    pub closed spec fn wf(&self) -> bool {
        self.sensors.wf()
    }

    /// The MAC addresses in the order in which they came.
    pub closed spec fn keys(&self) -> Seq<Seq<char>> {
        self.sensors.keys()
    }

    /// The keys are those of the map, each once.
    pub proof fn lemma_keys(&self)
        requires
            self.wf(),
        ensures
            self.keys().no_duplicates(),
            forall|k: Seq<char>| #[trigger] self.keys().contains(k) == self@.contains_key(k),
    {
        self.sensors.lemma_keys();
    }

    pub fn new() -> (r: Self)
        ensures
            r.wf(),
            r@ == Map::<Seq<char>, CachedView>::empty(),
    {
        SensorCache { sensors: Registry::new() }
    }

    /// A sensor is known from now on.
    pub fn register(&mut self, mac: &str, sensor_type: &str, version: &str, now: u64)
        requires
            old(self).wf(),
        ensures
            final(self).wf(),
            final(self)@ == old(self)@.insert(mac@, entry(mac@, sensor_type@, version@, now)),
    {
        let s = CachedSensor {
            mac: mac.to_owned(),
            sensor_type: sensor_type.to_owned(),
            version: version.to_owned(),
            last_seen: now,
            battery: 100,
            signal: -60,
        };
        self.sensors.insert(mac.to_owned(), s);
    }

    /// A sensor is known no more.
    pub fn evict(&mut self, mac: &str)
        requires
            old(self).wf(),
        ensures
            final(self).wf(),
            final(self)@ == old(self)@.remove(mac@),
    {
        self.sensors.remove(mac);
    }

    /// All sensors, in the order in which they came.
    pub fn list(&self) -> (r: Vec<CachedSensor>)
        requires
            self.wf(),
        ensures
            r@.len() == self.keys().len(),
            forall|i: int| 0 <= i < r@.len() ==> (#[trigger] r@[i])@ == self@[self.keys()[i]],
    {
        let mut r: Vec<CachedSensor> = Vec::new();
        let mut i: usize = 0;
        while i < self.sensors.len()
            invariant
                self.wf(),
                i <= self.keys().len(),
                r@.len() == i,
                forall|j: int| 0 <= j < i ==> (#[trigger] r@[j])@ == self@[self.keys()[j]],
            decreases self.keys().len() - i,
        {
            r.push(self.sensors.value(i).clone());
            i += 1;
        }
        r
    }

    /// Gives up the sensors that have been silent for too long at a millisecond, and
    /// tells which they are.
    pub fn expire(&mut self, now_ms: u64) -> (r: Vec<DongleEvent>)
        requires
            old(self).wf(),
        ensures
            final(self).wf(),
            final(self)@ == remaining(old(self)@, now_ms),
            event_views(r@) == gone_events(old(self)@, old(self).keys(), now_ms),
    {
        let ghost m = self@;
        let ghost keys = self.keys();
        proof {
            self.sensors.lemma_keys();
        }
        let mut gone: Vec<DongleEvent> = Vec::new();
        proof {
            assert(event_views(gone@) =~= Seq::empty());
        }
        let mut i: usize = 0;
        while i < self.sensors.len()
            invariant
                self.wf(),
                *self == *old(self),
                m == self@,
                keys == self.keys(),
                i <= keys.len(),
                forall|k: Seq<char>| #![auto] keys.contains(k) == m.contains_key(k),
                keys.no_duplicates(),
                event_views(gone@) == gone_events(m, keys.subrange(0, i as int), now_ms),
                forall|k: Seq<char>| #[trigger]
                    tells_of(gone@, k) <==> keys.subrange(0, i as int).contains(k) && silent(
                        m[k],
                        now_ms,
                    ),
            decreases keys.len() - i,
        {
            let ghost seen = keys.subrange(0, i as int);
            let ghost now_seen = keys.subrange(0, i + 1);
            let ghost key = keys[i as int];
            proof {
                assert(now_seen.drop_last() =~= seen);
                assert(now_seen.last() == key);
                assert forall|k: Seq<char>| now_seen.contains(k) <==> seen.contains(k) || k
                    == key by {
                    if seen.contains(k) {
                        assert(now_seen[seen.index_of(k)] == k);
                    }
                    if now_seen.contains(k) {
                        let j = now_seen.index_of(k);
                        if j < i {
                            assert(seen[j] == k);
                        }
                    }
                    assert(now_seen[i as int] == key);
                }
            }
            let c = self.sensors.value(i);
            let ghost before = gone@;
            if is_silent(c, now_ms) {
                let e = DongleEvent::offline(
                    self.sensors.key(i).to_owned(),
                    variant_type(c.sensor_type.as_str()),
                    now_ms,
                );
                let ghost ev = e;
                gone.push(e);
                proof {
                    assert(event_views(gone@) =~= event_views(before).push(ev@));
                    assert forall|k: Seq<char>| tells_of(gone@, k) <==> tells_of(before, k) || k
                        == key by {
                        if tells_of(before, k) {
                            let j = choose|j: int| 0 <= j < before.len() && before[j].mac@ == k;
                            assert(gone@[j].mac@ == k);
                        }
                        assert(gone@[before.len() as int].mac@ == key);
                        if tells_of(gone@, k) {
                            let j = choose|j: int| 0 <= j < gone@.len() && gone@[j].mac@ == k;
                            if j < before.len() {
                                assert(before[j].mac@ == k);
                            }
                        }
                    }
                }
            }
            proof {
                assert forall|k: Seq<char>| #[trigger] tells_of(gone@, k) <==> now_seen.contains(k)
                    && silent(m[k], now_ms) by {
                    assert(tells_of(before, k) <==> seen.contains(k) && silent(m[k], now_ms));
                }
            }
            i += 1;
        }
        proof {
            assert(keys.subrange(0, keys.len() as int) =~= keys);
        }
        let mut j: usize = 0;
        while j < gone.len()
            invariant
                self.wf(),
                j <= gone@.len(),
                self@ =~= Map::new(
                    |k: Seq<char>| m.contains_key(k) && !tells_of(gone@.subrange(0, j as int), k),
                    |k: Seq<char>| m[k],
                ),
            decreases gone@.len() - j,
        {
            let ghost before = self@;
            self.sensors.remove(gone[j].mac.as_str());
            proof {
                let a = gone@.subrange(0, j as int);
                let b = gone@.subrange(0, j + 1);
                let key = gone@[j as int].mac@;
                assert forall|k: Seq<char>| tells_of(b, k) <==> tells_of(a, k) || k == key by {
                    if tells_of(a, k) {
                        let x = choose|x: int| 0 <= x < a.len() && a[x].mac@ == k;
                        assert(b[x].mac@ == k);
                    }
                    assert(b[j as int].mac@ == key);
                    if tells_of(b, k) {
                        let x = choose|x: int| 0 <= x < b.len() && b[x].mac@ == k;
                        if x < j {
                            assert(a[x].mac@ == k);
                        }
                    }
                }
            }
            j += 1;
        }
        proof {
            assert(gone@.subrange(0, gone@.len() as int) =~= gone@);
            assert(self@ =~= remaining(m, now_ms));
        }
        gone
    }
}

/// One of the events is about a sensor.
spec fn tells_of(s: Seq<DongleEvent>, k: Seq<char>) -> bool {
    exists|j: int| 0 <= j < s.len() && (#[trigger] s[j]).mac@ == k
}

/// A sensor is told to be gone exactly when it has been silent for too long.
pub proof fn law_silence_is_told(m: Cached, keys: Seq<Seq<char>>, k: Seq<char>, now_ms: u64)
    requires
        keys.contains(k),
    ensures
        silent(m[k], now_ms) == gone_events(m, keys, now_ms).contains(
            gone_event(k, m[k], now_ms),
        ),
{
    lemma_gone_events(m, keys, k, now_ms);
}

proof fn lemma_gone_events(m: Cached, keys: Seq<Seq<char>>, k: Seq<char>, now_ms: u64)
    ensures
        gone_events(m, keys, now_ms).contains(gone_event(k, m[k], now_ms)) == (keys.contains(k)
            && silent(m[k], now_ms)),
    decreases keys.len(),
{
    let e = gone_event(k, m[k], now_ms);
    if keys.len() > 0 {
        let d = keys.drop_last();
        let before = gone_events(m, d, now_ms);
        let after = gone_events(m, keys, now_ms);
        lemma_gone_events(m, d, k, now_ms);
        if d.contains(k) {
            assert(keys[d.index_of(k)] == k);
        }
        if keys.contains(k) && keys.last() != k {
            assert(d[keys.index_of(k)] == k);
        }
        if silent(m[keys.last()], now_ms) {
            let last = gone_event(keys.last(), m[keys.last()], now_ms);
            assert(after == before.push(last));
            assert(after[before.len() as int] == last);
            if before.contains(e) {
                assert(after[before.index_of(e)] == e);
            }
            if after.contains(e) && e != last {
                assert(before[after.index_of(e)] == e);
            }
        }
        if keys.last() == k {
            assert(keys[keys.len() - 1] == k);
        }
    }
}

/// What is given up once is not told again: at the same moment a second sweep finds
/// nothing.
pub proof fn law_gone_is_told_once(m: Cached, keys: Seq<Seq<char>>, now_ms: u64)
    requires
        forall|i: int| 0 <= i < keys.len() ==> remaining(m, now_ms).contains_key(#[trigger] keys[i]),
    ensures
        remaining(remaining(m, now_ms), now_ms) == remaining(m, now_ms),
        gone_events(remaining(m, now_ms), keys, now_ms) == Seq::<EventView>::empty(),
    decreases keys.len(),
{
    assert(remaining(remaining(m, now_ms), now_ms) =~= remaining(m, now_ms));
    if keys.len() > 0 {
        let d = keys.drop_last();
        assert forall|i: int| 0 <= i < d.len() implies remaining(m, now_ms).contains_key(
            #[trigger] d[i],
        ) by {
            assert(d[i] == keys[i]);
        }
        law_gone_is_told_once(m, d, now_ms);
        assert(remaining(m, now_ms).contains_key(keys[keys.len() - 1]));
    }
}

/// A sensor in memory is given up when it has been silent for more than two hours, and is told
/// as gone under its own address and the type that it had; every other sensor stays as it is.
pub proof fn law_two_hours_of_silence(m: Cached, k: Seq<char>, now_ms: u64)
    requires
        m.contains_key(k),
    ensures
        remaining(m, now_ms).contains_key(k) <==> now_ms - m[k].last_seen * 1000 <= 2 * 60 * 60
            * 1000,
        remaining(m, now_ms).contains_key(k) ==> remaining(m, now_ms)[k] == m[k],
        gone_event(k, m[k], now_ms).mac == k,
        gone_event(k, m[k], now_ms).timestamp == now_ms,
        gone_event(k, m[k], now_ms).event_type == 0,
        gone_event(k, m[k], now_ms).data is Offline,
        gone_event(k, m[k], now_ms).dongle_mac is None,
        gone_event(k, m[k], now_ms).sensor_type == variant_of(m[k].sensor_type),
{
}

/// A known type comes back from the name under which it is kept in memory; any other name
/// stands for an unknown type.
pub proof fn law_types_in_memory(t: SensorType, s: Seq<char>)
    ensures
        !(t is Unknown) ==> variant_of(variant_name(t)) == t,
        variant_of(s) is Unknown ==> variant_of(s) == SensorType::Unknown(0),
        !(variant_of(s) is Unknown) ==> variant_name(variant_of(s)) == s,
        !(t is Unknown) ==> SensorType::of_name(variant_name(t)) == Some(t),
{
    reveal_strlit("ContactV1");
    reveal_strlit("MotionV1");
    reveal_strlit("ContactV2");
    reveal_strlit("MotionV2");
    reveal_strlit("LeakV2");
    reveal_strlit("ClimateV2");
    reveal_strlit("Chime");
    assert("ContactV1"@.len() == 9 && "ContactV1"@[1] == 'o' && "ContactV1"@[8] == '1');
    assert("ContactV2"@.len() == 9 && "ContactV2"@[1] == 'o' && "ContactV2"@[8] == '2');
    assert("ClimateV2"@.len() == 9 && "ClimateV2"@[1] == 'l');
    assert("MotionV1"@.len() == 8 && "MotionV1"@[7] == '1');
    assert("MotionV2"@.len() == 8 && "MotionV2"@[7] == '2');
    assert("LeakV2"@.len() == 6 && "Chime"@.len() == 5);
    crate::protocol::telemetry::law_names_of_types(variant_name(t));
}

/// A sensor that comes into memory is full, of usual strength, and was seen just then.
pub proof fn law_entry_in_memory(
    mac: Seq<char>,
    sensor_type: Seq<char>,
    version: Seq<char>,
    now: u64,
)
    ensures
        ({
            let c = entry(mac, sensor_type, version, now);
            &&& c.mac == mac
            &&& c.sensor_type == sensor_type
            &&& c.version == version
            &&& c.last_seen == now
            &&& c.battery == 100
            &&& c.signal == -60
        }),
{
}

/// What stands in a sensor in memory is what its model shows, field by field.
pub proof fn law_model_of_a_cached_sensor(c: CachedSensor)
    ensures
        c@.mac == c.mac@,
        c@.sensor_type == c.sensor_type@,
        c@.version == c.version@,
        c@.last_seen == c.last_seen,
        c@.battery == c.battery,
        c@.signal == c.signal,
{
}

} // verus!
