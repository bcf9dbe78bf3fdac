//! The engine: what passes between the host and one dongle.
//!
//! Nothing here sends or waits. What is to be sent comes out as packets and requests,
//! what came in goes in as packets.
pub mod cache;
pub mod command;
pub mod dispatch;
pub mod handshake;
pub mod listing;
pub mod pairing;
pub mod pending;

use crate::clock;
use crate::engine::cache::{CachedSensor, CachedView, SensorCache};
use crate::engine::command::{EngineError, Request};
use crate::engine::handshake::{Handshake, HandshakeView};
use crate::engine::pending::Pending;
use crate::protocol::packet::{Packet, PacketView};
use crate::protocol::telemetry::{DongleEvent, SensorType};
use crate::text;
use vstd::prelude::*;

verus! {

/// What the host knows of a dongle and of its sensors.
#[derive(Debug)]
pub struct Engine {
    dongle_mac: Option<String>,
    dongle_version: Option<String>,
    sensors: SensorCache,
    auto_verify: bool,
    scanning: bool,
}

/// The model of an engine.
pub struct EngineView {
    pub dongle_mac: Option<Seq<char>>,
    pub dongle_version: Option<Seq<char>>,
    pub sensors: Map<Seq<char>, CachedView>,
    pub auto_verify: bool,
    pub scanning: bool,
}

impl View for Engine {
    type V = EngineView;

    closed spec fn view(&self) -> EngineView {
        EngineView {
            dongle_mac: text::option_view(self.dongle_mac),
            dongle_version: text::option_view(self.dongle_version),
            sensors: self.sensors@,
            auto_verify: self.auto_verify,
            scanning: self.scanning,
        }
    }
}

impl EngineView {
    /// A sensor is known from a second on.
    pub open spec fn with_sensor(
        self,
        mac: Seq<char>,
        sensor_type: Seq<char>,
        version: Seq<char>,
        now: u64,
    ) -> EngineView {
        EngineView {
            sensors: self.sensors.insert(mac, cache::entry(mac, sensor_type, version, now)),
            ..self
        }
    }

    /// What a handshake has brought up to now.
    pub open spec fn told(self, h: HandshakeView) -> EngineView {
        EngineView {
            dongle_mac: if h.dongle_mac is Some {
                h.dongle_mac
            } else {
                self.dongle_mac
            },
            dongle_version: if h.dongle_version is Some {
                h.dongle_version
            } else {
                self.dongle_version
            },
            ..self
        }
    }
}

impl Engine {
    /// No sensor stands twice.
    pub closed spec fn wf(&self) -> bool {
        self.sensors.wf()
    }

    /// The sensors in the order in which they came.
    pub closed spec fn keys(&self) -> Seq<Seq<char>> {
        self.sensors.keys()
    }

    /// A dongle of which nothing is known.
    pub fn new() -> (r: Self)
        ensures
            r.wf(),
            r@ == (EngineView {
                dongle_mac: None,
                dongle_version: None,
                sensors: Map::empty(),
                auto_verify: false,
                scanning: false,
            }),
    {
        Engine {
            dongle_mac: None,
            dongle_version: None,
            sensors: SensorCache::new(),
            auto_verify: false,
            scanning: false,
        }
    }

    pub fn dongle_mac(&self) -> (r: Option<&str>)
        ensures
            match r {
                Some(s) => self@.dongle_mac == Some(s@),
                None => self@.dongle_mac is None,
            },
    {
        match &self.dongle_mac {
            Some(s) => Some(s.as_str()),
            None => None,
        }
    }

    pub fn dongle_version(&self) -> (r: Option<&str>)
        ensures
            match r {
                Some(s) => self@.dongle_version == Some(s@),
                None => self@.dongle_version is None,
            },
    {
        match &self.dongle_version {
            Some(s) => Some(s.as_str()),
            None => None,
        }
    }

    /// All sensors in memory, in the order in which they came.
    pub fn get_rich_sensors(&self) -> (r: Vec<CachedSensor>)
        requires
            self.wf(),
        ensures
            r@.len() == self.keys().len(),
            forall|i: int| 0 <= i < r@.len() ==> (#[trigger] r@[i])@ == self@.sensors[self.keys()[i]],
            self.keys().no_duplicates(),
            forall|k: Seq<char>| #[trigger] self.keys().contains(k) == self@.sensors.contains_key(k),
    {
        proof {
            self.sensors.lemma_keys();
        }
        self.sensors.list()
    }

    /// A sensor is known from a second on.
    pub fn register_sensor_locally_at(&mut self, mac: &str, s_type: &str, version: &str, now: u64)
        requires
            old(self).wf(),
        ensures
            final(self).wf(),
            final(self)@ == old(self)@.with_sensor(mac@, s_type@, version@, now),
    {
        self.sensors.register(mac, s_type, version, now);
    }

    /// A sensor is known from now on. Nothing is known of the moment.
    pub fn register_sensor_locally(&mut self, mac: &str, s_type: &str, version: &str)
        requires
            old(self).wf(),
        ensures
            final(self).wf(),
            exists|now: u64|
                final(self)@ == #[trigger] old(self)@.with_sensor(mac@, s_type@, version@, now),
    {
        self.register_sensor_locally_at(mac, s_type, version, clock::now_ms() / 1000);
    }

    /// A sensor of a type is known from now on. Nothing is known of the moment.
    pub fn register_sensor(&mut self, mac: &str, sensor_type: SensorType)
        requires
            old(self).wf(),
        ensures
            final(self).wf(),
            exists|now: u64|
                final(self)@ == #[trigger] old(self)@.with_sensor(
                    mac@,
                    cache::variant_name(sensor_type),
                    "1"@,
                    now,
                ),
    {
        let name = cache::type_variant(sensor_type);
        self.register_sensor_locally_at(mac, name.as_str(), "1", clock::now_ms() / 1000);
    }

    /// Whether sensors that come up in a scan are paired without being asked for.
    pub fn set_auto_verify(&mut self, enable: bool)
        ensures
            final(self)@ == (EngineView { auto_verify: enable, ..old(self)@ }),
            final(self).wf() == old(self).wf(),
    {
        self.auto_verify = enable;
    }

    pub fn auto_verify(&self) -> (r: bool)
        ensures
            r == self@.auto_verify,
    {
        self.auto_verify
    }

    pub fn is_scanning(&self) -> (r: bool)
        ensures
            r == self@.scanning,
    {
        self.scanning
    }

    /// The dongle confirmed that it searches for sensors, or that it does so no more.
    pub fn scan_confirmed(&mut self, enable: bool)
        ensures
            final(self)@ == (EngineView { scanning: enable, ..old(self)@ }),
            final(self).wf() == old(self).wf(),
    {
        self.scanning = enable;
    }

    /// The dongle confirmed that a sensor is unbound.
    pub fn delete_confirmed(&mut self, mac: &str)
        requires
            old(self).wf(),
        ensures
            final(self).wf(),
            final(self)@ == (EngineView {
                sensors: old(self)@.sensors.remove(mac@),
                ..old(self)@
            }),
    {
        self.sensors.evict(mac);
    }

    /// Gives up the sensors that have been silent for too long at a millisecond, and
    /// tells which they are.
    pub fn expire_sensors(&mut self, now_ms: u64) -> (r: Vec<DongleEvent>)
        requires
            old(self).wf(),
        ensures
            final(self).wf(),
            final(self)@ == (EngineView {
                sensors: cache::remaining(old(self)@.sensors, now_ms),
                ..old(self)@
            }),
            cache::event_views(r@) == cache::gone_events(
                old(self)@.sensors,
                old(self).keys(),
                now_ms,
            ),
    {
        self.sensors.expire(now_ms)
    }

    /// Takes a handshake on by the answer to what was asked last, if anything was, and keeps
    /// what it brought. Gives what is to be asked next, nothing when the dongle is unlocked.
    /// An answer that ends the handshake changes nothing.
    pub fn initialize_handshake(&mut self, h: &mut Handshake, reply: Option<&Packet>) -> (r: Result<
        Option<Request>,
        EngineError,
    >)
        ensures
            match old(self)@.initialize(old(h)@, handshake::seen(reply)) {
                Ok((engine, next)) => {
                    &&& final(self)@ == engine
                    &&& final(h)@ == next
                    &&& r matches Ok(q) && match q {
                        Some(x) => next.step.request() == Some(x@),
                        None => next.step.request() is None,
                    }
                },
                Err(e) => {
                    &&& final(self)@ == old(self)@
                    &&& final(h)@ == old(h)@
                    &&& r matches Err(f) && f == e
                },
            },
            final(self).wf() == old(self).wf(),
    {
        match reply {
            Some(p) => match h.answer(p) {
                Ok(_) => {
                    self.keep(h);
                },
                Err(e) => {
                    return Err(e);
                },
            },
            None => {},
        }
        Ok(h.request())
    }

    /// Keeps what a handshake has brought up to now.
    pub fn keep(&mut self, h: &Handshake)
        ensures
            final(self)@ == old(self)@.told(h@),
            final(self).wf() == old(self).wf(),
    {
        if h.dongle_mac.is_some() {
            self.dongle_mac = text::copy_option(&h.dongle_mac);
        }
        if h.dongle_version.is_some() {
            self.dongle_version = text::copy_option(&h.dongle_version);
        }
    }

    /// Starts an exchange: somebody waits for the answer. Gives the bytes to send.
    pub fn do_command<T>(pending: &mut Pending<T>, request: &Request, who: T) -> (r: Vec<u8>)
        ensures
            r@ == request@.packet.wire(),
            final(pending)@ == old(pending)@.insert(request@.expected, who),
    {
        pending.wait(request.expected, who);
        request.packet.to_bytes()
    }

    /// Ends an exchange whose answer did not come in time.
    pub fn give_up<T>(pending: &mut Pending<T>, request: &Request) -> (r: EngineError)
        ensures
            final(pending)@ == old(pending)@.remove(request@.expected),
            r == (EngineError::TimedOut {
                cmd: request@.packet.cmd(),
                expected: request@.expected,
            }),
    {
        pending.take(request.expected);
        EngineError::TimedOut { cmd: request.packet.cmd(), expected: request.expected }
    }
}

impl EngineView {
    /// The engine and the handshake after an answer, or why the handshake ends there.
    /// Without an answer both stay as they are.
    pub open spec fn initialize(self, h: HandshakeView, reply: Option<PacketView>) -> Result<
        (EngineView, HandshakeView),
        EngineError,
    > {
        match reply {
            None => Ok((self, h)),
            Some(p) => match h.answered(p) {
                Ok(n) => Ok((self.told(n), n)),
                Err(e) => Err(e),
            },
        }
    }

    /// The engine after a run of answers; it stays as it is from the first one on that
    /// ends the handshake.
    pub open spec fn initialized(self, h: HandshakeView, replies: Seq<PacketView>) -> EngineView
        decreases replies.len(),
    {
        if replies.len() == 0 {
            self
        } else {
            match self.initialize(h, Some(replies[0])) {
                Ok((e, n)) => e.initialized(n, replies.subrange(1, replies.len() as int)),
                Err(_) => self,
            }
        }
    }
}

/// A handshake changes nothing of an engine but what it knows of the dongle itself, and
/// what a handshake that was not cut short has brought is known to the engine.
pub proof fn law_handshake_is_kept(engine: EngineView, h: HandshakeView, replies: Seq<PacketView>)
    ensures
        ({
            let e = engine.initialized(h, replies);
            &&& e == (EngineView {
                dongle_mac: e.dongle_mac,
                dongle_version: e.dongle_version,
                ..engine
            })
            &&& match h.answered_all(replies) {
                Ok(n) => replies.len() > 0 ==> e == e.told(n),
                Err(_) => true,
            }
        }),
    decreases replies.len(),
{
    if replies.len() > 0 {
        match h.answered(replies[0]) {
            Ok(n) => {
                law_handshake_is_kept(
                    engine.told(n),
                    n,
                    replies.subrange(1, replies.len() as int),
                );
            },
            Err(_) => {},
        }
    }
}

/// Five good answers leave an engine that knows the MAC address and the version that
/// the dongle told, and is otherwise as it was.
pub proof fn law_good_answers_are_kept(
    engine: EngineView,
    inquiry: PacketView,
    enr: PacketView,
    mac: PacketView,
    version: PacketView,
    auth: PacketView,
)
    requires
        command::inquiry_result(inquiry) is Ok,
        command::enr_result(enr) is Ok,
        command::mac_result(mac) is Ok,
        command::version_result(version) is Ok,
    ensures
        engine.initialized(HandshakeView::start(), seq![inquiry, enr, mac, version, auth]) == (
        EngineView {
            dongle_mac: Some(command::mac_result(mac)->Ok_0),
            dongle_version: Some(command::version_result(version)->Ok_0),
            ..engine
        }),
{
    let s = seq![inquiry, enr, mac, version, auth];
    handshake::law_good_answers_unlock(inquiry, enr, mac, version, auth);
    law_handshake_is_kept(engine, HandshakeView::start(), s);
}

/// An answer without a usable version ends the handshake; the MAC address that came
/// before it is known all the same.
pub proof fn law_mac_outlives_bad_version(
    engine: EngineView,
    inquiry: PacketView,
    enr: PacketView,
    mac: PacketView,
    version: PacketView,
)
    requires
        command::inquiry_result(inquiry) is Ok,
        command::enr_result(enr) is Ok,
        command::mac_result(mac) is Ok,
        command::version_result(version) is Err,
    ensures
        HandshakeView::start().answered_all(seq![inquiry, enr, mac, version]) == Err::<
            HandshakeView,
            EngineError,
        >(command::version_result(version)->Err_0),
        engine.initialized(HandshakeView::start(), seq![inquiry, enr, mac, version]) == (
        EngineView { dongle_mac: Some(command::mac_result(mac)->Ok_0), ..engine }),
{
    let s = seq![inquiry, enr, mac, version];
    let s1 = s.subrange(1, 4);
    assert(s1 =~= seq![enr, mac, version]);
    let s2 = s1.subrange(1, 3);
    assert(s2 =~= seq![mac, version]);
    let s3 = s2.subrange(1, 2);
    assert(s3 =~= seq![version]);
    reveal_with_fuel(HandshakeView::answered_all, 5);
    reveal_with_fuel(EngineView::initialized, 5);
}

/// Each sensor in memory stands once in their order.
pub proof fn law_each_cached_sensor_has_one_key(engine: &Engine)
    requires
        engine.wf(),
    ensures
        engine.keys().no_duplicates(),
        forall|k: Seq<char>| #[trigger] engine.keys().contains(k) == engine@.sensors.contains_key(k),
{
    engine.sensors.lemma_keys();
}

/// A sensor that becomes known stands in memory under its address with its type and version,
/// and nothing else of the engine changes.
pub proof fn law_sensor_comes_into_memory(
    engine: EngineView,
    mac: Seq<char>,
    sensor_type: Seq<char>,
    version: Seq<char>,
    now: u64,
    other: Seq<char>,
)
    ensures
        ({
            let e = engine.with_sensor(mac, sensor_type, version, now);
            &&& e.sensors.contains_key(mac)
            &&& e.sensors[mac].mac == mac
            &&& e.sensors[mac].sensor_type == sensor_type
            &&& e.sensors[mac].version == version
            &&& e.sensors[mac].last_seen == now
            &&& other != mac ==> e.sensors.contains_key(other) == engine.sensors.contains_key(other)
                && (engine.sensors.contains_key(other) ==> e.sensors[other]
                == engine.sensors[other])
            &&& e.dongle_mac == engine.dongle_mac
            &&& e.dongle_version == engine.dongle_version
            &&& e.auto_verify == engine.auto_verify
            &&& e.scanning == engine.scanning
        }),
{
}

/// What a handshake has brought takes the place of what was known of the dongle, address for
/// address and version for version; what it has not brought stays.
pub proof fn law_told_is_known(engine: EngineView, h: HandshakeView)
    ensures
        h.dongle_mac is Some ==> engine.told(h).dongle_mac == h.dongle_mac,
        h.dongle_mac is None ==> engine.told(h).dongle_mac == engine.dongle_mac,
        h.dongle_version is Some ==> engine.told(h).dongle_version == h.dongle_version,
        h.dongle_version is None ==> engine.told(h).dongle_version == engine.dongle_version,
        engine.told(h).sensors == engine.sensors,
        engine.told(h).scanning == engine.scanning,
        engine.told(h).auto_verify == engine.auto_verify,
{
}

/// An answer that ends the handshake is told as the error that it is; without an answer
/// nothing changes.
pub proof fn law_handshake_of_an_engine(engine: EngineView, h: HandshakeView, reply: PacketView)
    ensures
        engine.initialize(h, None) == Ok::<(EngineView, HandshakeView), EngineError>((engine, h)),
        h.answered(reply) matches Err(e) ==> engine.initialize(h, Some(reply)) == Err::<
            (EngineView, HandshakeView),
            EngineError,
        >(e),
        h.answered(reply) matches Ok(n) ==> engine.initialize(h, Some(reply)) == Ok::<
            (EngineView, HandshakeView),
            EngineError,
        >((engine.told(n), n)),
{
}

} // verus!
